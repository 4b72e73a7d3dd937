use transfer_hooks::pubkey::{contains_key, position_of, Pubkey};
use transfer_hooks::transfer_hook::errors::ErrorCode;
use transfer_hooks::transfer_hook::instructions::add_whitelist_address::{self, AddWhitelistAddress};
use transfer_hooks::transfer_hook::instructions::on_transfer::{self, OnTransfer};
use transfer_hooks::transfer_hook::instructions::remove_whitelist_address::{self, RemoveWhitelistAddress};
use transfer_hooks::transfer_hook::instructions::update_whitelist_addresses::{
    self, has_duplicates, UpdateWhitelistAddresses,
};
use transfer_hooks::transfer_hook::program::{
    execute, hello_world, initialize, CounterAccount, Execute, HelloWorld, InitializeCounter, MyError,
    MAX_TRANSFER_AMOUNT,
};
use transfer_hooks::transfer_hook::states::{Whitelist, MAX_WHITELIST_ADDRESSES};

fn key(n: u8) -> Pubkey {
    let mut bytes = [0u8; 32];
    bytes[0] = n;
    bytes[31] = n.wrapping_mul(7);
    Pubkey::new_from_array(bytes)
}

fn keys(v: &[u8]) -> Vec<Pubkey> {
    v.iter().map(|n| key(*n)).collect()
}

fn bytes_of(v: &[Pubkey]) -> Vec<[u8; 32]> {
    v.iter().map(|k| k.to_bytes()).collect()
}

fn whitelist(v: &[u8]) -> Whitelist {
    Whitelist { authority: key(200), addresses: keys(v) }
}

#[test]
fn key_equality_compares_every_byte() {
    let a = key(1);
    let mut b_bytes = a.to_bytes();
    assert!(a.key_eq(&Pubkey::new_from_array(b_bytes)));
    b_bytes[17] ^= 1;
    assert!(!a.key_eq(&Pubkey::new_from_array(b_bytes)));
}

#[test]
fn membership_and_first_position() {
    let v = keys(&[3, 5, 3, 9]);
    assert!(contains_key(&v, &key(9)));
    assert!(!contains_key(&v, &key(4)));
    assert_eq!(position_of(&v, &key(3)), Some(0));
    assert_eq!(position_of(&v, &key(9)), Some(3));
    assert_eq!(position_of(&v, &key(4)), None);
    assert_eq!(position_of(&Vec::new(), &key(4)), None);
}

#[test]
fn add_appends_a_new_address() {
    let mut ctx = AddWhitelistAddress { whitelist: whitelist(&[1, 2]), authority: key(200) };
    assert_eq!(add_whitelist_address::handler(&mut ctx, key(3)), Ok(()));
    assert_eq!(bytes_of(&ctx.whitelist.addresses), bytes_of(&keys(&[1, 2, 3])));
}

#[test]
fn add_refuses_a_listed_address() {
    let mut ctx = AddWhitelistAddress { whitelist: whitelist(&[1, 2]), authority: key(200) };
    assert_eq!(add_whitelist_address::handler(&mut ctx, key(2)), Err(ErrorCode::AddressAlreadyWhitelisted));
    assert_eq!(bytes_of(&ctx.whitelist.addresses), bytes_of(&keys(&[1, 2])));
}

#[test]
fn remove_swaps_the_last_address_in() {
    let mut ctx = RemoveWhitelistAddress { whitelist: whitelist(&[1, 2, 3, 4]), authority: key(200) };
    assert_eq!(remove_whitelist_address::handler(&mut ctx, key(2)), Ok(()));
    assert_eq!(bytes_of(&ctx.whitelist.addresses), bytes_of(&keys(&[1, 4, 3])));
}

#[test]
fn remove_of_an_unlisted_address_fails() {
    let mut ctx = RemoveWhitelistAddress { whitelist: whitelist(&[1, 2]), authority: key(200) };
    assert_eq!(remove_whitelist_address::handler(&mut ctx, key(7)), Err(ErrorCode::AddressNotWhitelisted));
    assert_eq!(bytes_of(&ctx.whitelist.addresses), bytes_of(&keys(&[1, 2])));
}

#[test]
fn remove_undoes_add() {
    let mut add = AddWhitelistAddress { whitelist: whitelist(&[5, 6, 7]), authority: key(200) };
    assert_eq!(add_whitelist_address::handler(&mut add, key(8)), Ok(()));
    let mut remove = RemoveWhitelistAddress { whitelist: add.whitelist, authority: key(200) };
    assert_eq!(remove_whitelist_address::handler(&mut remove, key(8)), Ok(()));
    assert_eq!(bytes_of(&remove.whitelist.addresses), bytes_of(&keys(&[5, 6, 7])));
}

#[test]
fn duplicates_are_found() {
    assert!(has_duplicates(&keys(&[1, 2, 1])));
    assert!(has_duplicates(&keys(&[4, 4])));
    assert!(!has_duplicates(&keys(&[1, 2, 3])));
    assert!(!has_duplicates(&Vec::new()));
}

#[test]
fn update_replaces_the_list() {
    let mut ctx = UpdateWhitelistAddresses { whitelist: whitelist(&[1, 2]), authority: key(200) };
    assert_eq!(update_whitelist_addresses::handler(&mut ctx, keys(&[9, 8, 7])), Ok(()));
    assert_eq!(bytes_of(&ctx.whitelist.addresses), bytes_of(&keys(&[9, 8, 7])));
    assert_eq!(update_whitelist_addresses::handler(&mut ctx, Vec::new()), Ok(()));
    assert!(ctx.whitelist.addresses.is_empty());
}

#[test]
fn update_refuses_duplicates() {
    let mut ctx = UpdateWhitelistAddresses { whitelist: whitelist(&[1, 2]), authority: key(200) };
    assert_eq!(
        update_whitelist_addresses::handler(&mut ctx, keys(&[9, 8, 9])),
        Err(ErrorCode::DuplicateAddressInWhitelist)
    );
    assert_eq!(bytes_of(&ctx.whitelist.addresses), bytes_of(&keys(&[1, 2])));
}

fn transfer_to(destination: u8, listed: &[u8]) -> OnTransfer {
    OnTransfer {
        source_token: key(100),
        mint: key(101),
        destination_token: key(destination),
        owner: key(102),
        extra_account_meta_list: key(103),
        whitelist: whitelist(listed),
    }
}

#[test]
fn transfer_to_a_listed_account_passes() {
    assert_eq!(on_transfer::handler(&transfer_to(2, &[1, 2, 3]), 500), Ok(()));
}

#[test]
fn transfer_to_an_unlisted_account_fails() {
    assert_eq!(on_transfer::handler(&transfer_to(4, &[1, 2, 3]), 500), Err(ErrorCode::RecipientNotWhitelisted));
    assert_eq!(on_transfer::handler(&transfer_to(4, &[]), 0), Err(ErrorCode::RecipientNotWhitelisted));
}

#[test]
fn added_address_receives_and_removed_does_not() {
    let mut add = AddWhitelistAddress { whitelist: whitelist(&[1]), authority: key(200) };
    add_whitelist_address::handler(&mut add, key(4)).unwrap();
    let mut t = transfer_to(4, &[]);
    t.whitelist = add.whitelist;
    assert_eq!(on_transfer::handler(&t, 1), Ok(()));
    let mut remove = RemoveWhitelistAddress { whitelist: t.whitelist, authority: key(200) };
    remove_whitelist_address::handler(&mut remove, key(4)).unwrap();
    t.whitelist = remove.whitelist;
    assert_eq!(on_transfer::handler(&t, 1), Err(ErrorCode::RecipientNotWhitelisted));
}

#[test]
fn error_numbers_start_at_6000() {
    assert_eq!(ErrorCode::RecipientNotWhitelisted.code(), 6000);
    assert_eq!(ErrorCode::AddressAlreadyWhitelisted.code(), 6006);
    assert_eq!(ErrorCode::DuplicateAddressInWhitelist.code(), 6008);
    assert_eq!(MyError::AmountTooBig.code(), 6000);
}

#[test]
fn failed_integer_conversion_is_a_number_cast_error() {
    let e: ErrorCode = u8::try_from(300u32).unwrap_err().into();
    assert_eq!(e, ErrorCode::NumberCastError);
}

#[test]
fn whitelist_space() {
    assert_eq!(Whitelist::MAX_SIZE, 3236);
}

#[test]
fn initialize_zeroes_the_counter() {
    let mut ctx = InitializeCounter { payer: key(1), counter_account: CounterAccount { counter: 41 } };
    assert_eq!(initialize(&mut ctx), Ok(()));
    assert_eq!(ctx.counter_account.counter, 0);
}

#[test]
fn execute_limits_the_amount() {
    let ctx = Execute { source_token: key(1), mint: key(2), destination_token: key(3), owner: key(4) };
    assert_eq!(execute(&ctx, 0), Ok(()));
    assert_eq!(execute(&ctx, MAX_TRANSFER_AMOUNT), Ok(()));
    assert_eq!(execute(&ctx, 100_000_000), Ok(()));
    assert_eq!(execute(&ctx, 100_000_001), Err(MyError::AmountTooBig));
    assert_eq!(execute(&ctx, u64::MAX), Err(MyError::AmountTooBig));
}

#[test]
fn hello_world_succeeds() {
    assert_eq!(hello_world(&HelloWorld {}), Ok(()));
}

fn full_list() -> Vec<u8> {
    (0..100u8).collect()
}

#[test]
fn add_refuses_a_hundred_and_first_address() {
    let mut ctx = AddWhitelistAddress { whitelist: whitelist(&full_list()), authority: key(200) };
    assert_eq!(add_whitelist_address::handler(&mut ctx, key(150)), Err(ErrorCode::AccountDidNotSerialize));
    assert_eq!(bytes_of(&ctx.whitelist.addresses), bytes_of(&keys(&full_list())));
    // a listed address is reported as such first
    assert_eq!(add_whitelist_address::handler(&mut ctx, key(7)), Err(ErrorCode::AddressAlreadyWhitelisted));
    // ninety-nine leave room for one more
    let mut ctx = AddWhitelistAddress { whitelist: whitelist(&full_list()[..99]), authority: key(200) };
    assert_eq!(add_whitelist_address::handler(&mut ctx, key(150)), Ok(()));
    assert_eq!(ctx.whitelist.addresses.len(), MAX_WHITELIST_ADDRESSES);
}

#[test]
fn update_refuses_more_than_a_hundred_addresses() {
    let mut ctx = UpdateWhitelistAddresses { whitelist: whitelist(&[1]), authority: key(200) };
    let too_many: Vec<u8> = (0..101u8).collect();
    assert_eq!(update_whitelist_addresses::handler(&mut ctx, keys(&too_many)), Err(ErrorCode::AccountDidNotSerialize));
    assert_eq!(bytes_of(&ctx.whitelist.addresses), bytes_of(&keys(&[1])));
    // duplicates are reported first
    let mut dup = too_many.clone();
    dup[100] = 0;
    assert_eq!(update_whitelist_addresses::handler(&mut ctx, keys(&dup)), Err(ErrorCode::DuplicateAddressInWhitelist));
    assert_eq!(update_whitelist_addresses::handler(&mut ctx, keys(&full_list())), Ok(()));
    assert_eq!(ctx.whitelist.addresses.len(), 100);
    assert_eq!(ErrorCode::AccountDidNotSerialize.code(), 3004);
}
