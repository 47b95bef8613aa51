use vstd::prelude::*;
use crate::account::AccountId;

verus! {

/// The record kept for each token: a mutable user name and an item fixed at mint.
#[derive(Clone, Debug, PartialEq, Eq)]
pub struct NFT {
    pub username: String,
    pub item: String,
}

/// The abstract value of a record.
pub struct NftView {
    pub username: Seq<char>,
    pub item: Seq<char>,
}

impl View for NFT {
    type V = NftView;

    open spec fn view(&self) -> NftView {
        NftView { username: self.username@, item: self.item@ }
    }
}

/// Why an operation on the registry was refused.
#[derive(Clone, Copy, Debug, PartialEq, Eq, Structural)]
pub enum Error {
    /// No token carries the given identifier.
    TokenNotFound,
    /// The caller does not own the token.
    NotTokenOwner,
    /// The identifier about to be assigned is already taken.
    TokenAlreadyExists,
    /// Every identifier has been assigned.
    TokenIdOverflow,
}

/// An ownership-change notice: `from` is absent when the token was just minted.
#[derive(Clone, Copy, Debug)]
pub struct Transfer {
    pub from: Option<AccountId>,
    pub to: Option<AccountId>,
    pub token_id: u32,
}

} // verus!
