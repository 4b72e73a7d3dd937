//! The dispatcher's instructions.
pub mod add_allowed_hook_program;
pub mod initialize_extra_account_meta_list;
pub mod initialize_global_dispatcher_config;
pub mod on_transfer;
pub mod register_hook_program;
pub mod remove_allowed_hook_program;
pub mod unregister_hook_program;
