use nft_contract::account::AccountId;
use nft_contract::registry::NftContract;
use nft_contract::token::{Error, Transfer};

fn alice() -> AccountId {
    AccountId::new([1u8; 32])
}

fn bob() -> AccountId {
    AccountId::new([2u8; 32])
}

fn charlie() -> AccountId {
    AccountId::new([3u8; 32])
}

fn django() -> AccountId {
    AccountId::new([4u8; 32])
}

#[test]
fn mint_works() {
    let mut contract = NftContract::new();

    let username = String::from("Alice");
    let item = String::from("Sword");

    assert_eq!(contract.mint(alice(), username.clone(), item.clone()), Ok(0));

    let nft = contract.get_nft(0).unwrap();
    assert_eq!(nft.username, username);
    assert_eq!(nft.item, item);
}

#[test]
fn transfer_works() {
    let mut contract = NftContract::new();

    let token_id = contract.mint(alice(), String::from("Alice"), String::from("Sword")).unwrap();

    assert_eq!(contract.transfer(alice(), bob(), token_id), Ok(()));

    // The former owner can no longer move the token.
    assert_eq!(contract.transfer(alice(), charlie(), token_id), Err(Error::NotTokenOwner));
}

#[test]
fn update_username_works() {
    let mut contract = NftContract::new();

    let token_id = contract.mint(alice(), String::from("Alice"), String::from("Sword")).unwrap();

    let new_username = String::from("AliceNewName");
    assert_eq!(contract.update_username(alice(), token_id, new_username.clone()), Ok(()));

    let nft = contract.get_nft(token_id).unwrap();
    assert_eq!(nft.username, new_username);
}

#[test]
fn cannot_update_item() {
    let mut contract = NftContract::new();

    let username = String::from("Alice");
    let item = String::from("Sword");

    let token_id = contract.mint(alice(), username.clone(), item.clone()).unwrap();

    let nft = contract.get_nft(token_id).unwrap();
    assert_eq!(nft.item, item);
}

#[test]
fn ids_are_consecutive_from_zero() {
    let mut contract = NftContract::new();
    for expected in 0u32..5 {
        let caller = if expected % 2 == 0 { alice() } else { bob() };
        assert_eq!(contract.mint(caller, format!("user{}", expected), String::from("Gem")), Ok(expected));
    }
    assert_eq!(contract.get_nft(4).unwrap().username, "user4");
    assert!(contract.get_nft(5).is_none());
}

#[test]
fn get_returns_minted_record() {
    let mut contract = NftContract::new();
    contract.mint(alice(), String::from("Alice"), String::from("Sword")).unwrap();
    let id = contract.mint(bob(), String::from("Bob"), String::from("Shield")).unwrap();
    assert_eq!(id, 1);
    let nft = contract.get_nft(1).unwrap();
    assert_eq!(nft.username, "Bob");
    assert_eq!(nft.item, "Shield");
    assert_eq!(contract.get_nft(0).unwrap().username, "Alice");
}

#[test]
fn minter_is_owner() {
    let mut contract = NftContract::new();
    let id = contract.mint(alice(), String::from("Alice"), String::from("Sword")).unwrap();
    assert_eq!(contract.transfer(bob(), charlie(), id), Err(Error::NotTokenOwner));
    assert_eq!(contract.update_username(bob(), id, String::from("Mallory")), Err(Error::NotTokenOwner));
    assert_eq!(contract.transfer(alice(), bob(), id), Ok(()));
}

#[test]
fn new_owner_can_transfer_old_cannot() {
    let mut contract = NftContract::new();
    let id = contract.mint(alice(), String::from("Alice"), String::from("Sword")).unwrap();
    assert_eq!(contract.transfer(alice(), bob(), id), Ok(()));
    assert_eq!(contract.transfer(alice(), alice(), id), Err(Error::NotTokenOwner));
    assert_eq!(contract.transfer(bob(), charlie(), id), Ok(()));
}

#[test]
fn transfer_chain_scenario() {
    let mut contract = NftContract::new();
    let id = contract.mint(alice(), String::from("Alice"), String::from("Sword")).unwrap();
    assert_eq!(id, 0);
    assert_eq!(contract.transfer(alice(), bob(), 0), Ok(()));
    assert_eq!(contract.transfer(bob(), charlie(), 0), Ok(()));
    assert_eq!(contract.transfer(alice(), django(), 0), Err(Error::NotTokenOwner));
}

#[test]
fn transfer_to_self_is_allowed() {
    let mut contract = NftContract::new();
    let id = contract.mint(alice(), String::from("Alice"), String::from("Sword")).unwrap();
    assert_eq!(contract.transfer(alice(), alice(), id), Ok(()));
    assert_eq!(contract.transfer(alice(), bob(), id), Ok(()));
}

#[test]
fn unminted_token_not_found() {
    let mut contract = NftContract::new();
    assert_eq!(contract.transfer(alice(), bob(), 0), Err(Error::TokenNotFound));
    assert_eq!(contract.update_username(alice(), 0, String::from("X")), Err(Error::TokenNotFound));
    contract.mint(alice(), String::from("Alice"), String::from("Sword")).unwrap();
    assert_eq!(contract.transfer(alice(), bob(), 1), Err(Error::TokenNotFound));
    assert_eq!(contract.update_username(alice(), 7, String::from("X")), Err(Error::TokenNotFound));
    assert_eq!(contract.transfer(alice(), bob(), u32::MAX), Err(Error::TokenNotFound));
}

#[test]
fn not_found_takes_precedence_over_ownership() {
    let mut contract = NftContract::new();
    contract.mint(alice(), String::from("Alice"), String::from("Sword")).unwrap();
    assert_eq!(contract.transfer(bob(), charlie(), 3), Err(Error::TokenNotFound));
}

#[test]
fn update_keeps_item_and_other_records() {
    let mut contract = NftContract::new();
    contract.mint(alice(), String::from("Alice"), String::from("Sword")).unwrap();
    contract.mint(alice(), String::from("Alice"), String::from("Bow")).unwrap();
    assert_eq!(contract.update_username(alice(), 0, String::from("Al")), Ok(()));
    assert_eq!(contract.transfer(alice(), bob(), 0), Ok(()));
    assert_eq!(contract.update_username(bob(), 0, String::from("Bobby")), Ok(()));
    let first = contract.get_nft(0).unwrap();
    assert_eq!(first.username, "Bobby");
    assert_eq!(first.item, "Sword");
    let second = contract.get_nft(1).unwrap();
    assert_eq!(second.username, "Alice");
    assert_eq!(second.item, "Bow");
}

#[test]
fn update_by_non_owner_leaves_record() {
    let mut contract = NftContract::new();
    let id = contract.mint(alice(), String::from("Alice"), String::from("Sword")).unwrap();
    assert_eq!(contract.update_username(bob(), id, String::from("Bob")), Err(Error::NotTokenOwner));
    let nft = contract.get_nft(id).unwrap();
    assert_eq!(nft.username, "Alice");
    assert_eq!(nft.item, "Sword");
}

#[test]
fn update_username_scenario() {
    let mut contract = NftContract::new();
    let id = contract.mint(alice(), String::from("Alice"), String::from("Sword")).unwrap();
    assert_eq!(id, 0);
    assert_eq!(contract.update_username(alice(), 0, String::from("AliceNewName")), Ok(()));
    let nft = contract.get_nft(0).unwrap();
    assert_eq!(nft.username, "AliceNewName");
    assert_eq!(nft.item, "Sword");
}

#[test]
fn get_on_empty_registry_is_none() {
    let contract = NftContract::new();
    assert!(contract.get_nft(999).is_none());
    assert!(contract.get_nft(0).is_none());
}

#[test]
fn empty_strings_are_kept() {
    let mut contract = NftContract::new();
    let id = contract.mint(alice(), String::new(), String::new()).unwrap();
    let nft = contract.get_nft(id).unwrap();
    assert_eq!(nft.username, "");
    assert_eq!(nft.item, "");
}

fn same_transfer(a: &Transfer, from: Option<AccountId>, to: Option<AccountId>, token_id: u32) -> bool {
    a.from == from && a.to == to && a.token_id == token_id
}

#[test]
fn notices_for_mint_and_transfer_only() {
    let mut contract = NftContract::new();
    assert!(contract.take_events().is_empty());
    let id = contract.mint(alice(), String::from("Alice"), String::from("Sword")).unwrap();
    contract.update_username(alice(), id, String::from("Al")).unwrap();
    contract.transfer(alice(), bob(), id).unwrap();
    assert_eq!(contract.transfer(alice(), bob(), id), Err(Error::NotTokenOwner));
    let events = contract.take_events();
    assert_eq!(events.len(), 2);
    assert!(same_transfer(&events[0], None, Some(alice()), 0));
    assert!(same_transfer(&events[1], Some(alice()), Some(bob()), 0));
    assert!(contract.take_events().is_empty());
    assert_eq!(contract.get_nft(0).unwrap().username, "Al");
}

#[test]
fn account_equality_is_bytewise() {
    let mut bytes = [7u8; 32];
    let a = AccountId::new(bytes);
    bytes[31] = 8;
    let b = AccountId::new(bytes);
    assert!(a.same_as(&a));
    assert!(!a.same_as(&b));
    assert!(a != b);
    assert!(a == AccountId::new([7u8; 32]));
}
