use vstd::prelude::*;
use crate::account::AccountId;
use crate::model::RegistryView;
use crate::token::{Error, NFT, NftView, Transfer};

verus! {

/// One minted token: its owner and its record.
struct Token {
    owner: AccountId,
    nft: NFT,
}

/// The token registry. Identifiers are assigned from 0 upwards, so token `id`
/// is kept at position `id` of `tokens`.
pub struct NftContract {
    tokens: Vec<Token>,
    next_token_id: u32,
    events: Vec<Transfer>,
}

impl View for NftContract {
    type V = RegistryView;

    closed spec fn view(&self) -> RegistryView {
        RegistryView {
            records: Map::new(
                |id: u32| (id as int) < self.tokens@.len(),
                |id: u32| self.tokens@[id as int].nft@,
            ),
            owners: Map::new(
                |id: u32| (id as int) < self.tokens@.len(),
                |id: u32| self.tokens@[id as int].owner,
            ),
            next_id: self.next_token_id,
            events: self.events@,
        }
    }
}

impl NftContract {
    /// The counter matches the number of tokens kept.
    pub closed spec fn wf(&self) -> bool {
        self.tokens@.len() == self.next_token_id
    }

    /// An empty registry whose next identifier is 0.
    pub fn new() -> (r: NftContract)
        ensures
            r.wf(),
            r@.tables_agree(),
            r@ == RegistryView::empty(),
    {
        let r = NftContract { tokens: Vec::new(), next_token_id: 0, events: Vec::new() };
        assert(r@.records =~= Map::empty());
        assert(r@.owners =~= Map::empty());
        assert(r@.events =~= Seq::empty());
        r
    }

    /// Mints a token for `caller` with the given record and returns its identifier.
    /// Fails, changing nothing, once every identifier has been assigned.
    pub fn mint(&mut self, caller: AccountId, username: String, item: String) -> (r: Result<
        u32,
        Error,
    >)
        requires
            old(self).wf(),
        ensures
            final(self).wf(),
            final(self)@.tables_agree(),
            (final(self)@, r) == old(self)@.mint(caller, username@, item@),
    {
        let token_id = self.next_token_id;
        if (token_id as usize) < self.tokens.len() {
            return Err(Error::TokenAlreadyExists);
        }
        let next = match token_id.checked_add(1) {
            Some(n) => n,
            None => {
                return Err(Error::TokenIdOverflow);
            },
        };
        self.tokens.push(Token { owner: caller, nft: NFT { username, item } });
        self.next_token_id = next;
        self.events.push(Transfer { from: None, to: Some(caller), token_id });
        let ghost post = old(self)@.mint(caller, username@, item@).0;
        assert(self@.records =~= post.records);
        assert(self@.owners =~= post.owners);
        Ok(token_id)
    }

    /// Checks that `token_id` exists and that `caller` owns it.
    fn check_owner(&self, caller: &AccountId, token_id: u32) -> (r: Result<(), Error>)
        ensures
            r matches Err(e) ==> self@.check_owner(*caller, token_id) == Some(e),
            r is Ok ==> self@.check_owner(*caller, token_id) is None,
    {
        if token_id as usize >= self.tokens.len() {
            return Err(Error::TokenNotFound);
        }
        if !self.tokens[token_id as usize].owner.same_as(caller) {
            return Err(Error::NotTokenOwner);
        }
        Ok(())
    }

    /// Hands token `token_id` from its owner `caller` to `to`.
    pub fn transfer(&mut self, caller: AccountId, to: AccountId, token_id: u32) -> (r: Result<
        (),
        Error,
    >)
        requires
            old(self).wf(),
        ensures
            final(self).wf(),
            final(self)@.tables_agree(),
            (final(self)@, r) == old(self)@.transfer(caller, to, token_id),
    {
        match self.check_owner(&caller, token_id) {
            Err(e) => {
                return Err(e);
            },
            Ok(()) => {},
        }
        self.tokens[token_id as usize].owner = to;
        self.events.push(Transfer { from: Some(caller), to: Some(to), token_id });
        let ghost post = old(self)@.transfer(caller, to, token_id).0;
        assert(self@.records =~= post.records);
        assert(self@.owners =~= post.owners);
        Ok(())
    }

    /// The record of `token_id`, or `None` where no such token exists.
    pub fn get_nft(&self, token_id: u32) -> (r: Option<NFT>)
        ensures
            r is Some == self@.get(token_id) is Some,
            r matches Some(n) ==> self@.get(token_id) == Some(n@),
    {
        if token_id as usize >= self.tokens.len() {
            return None;
        }
        let nft = &self.tokens[token_id as usize].nft;
        Some(NFT { username: nft.username.clone(), item: nft.item.clone() })
    }

    /// Replaces the user name of token `token_id`, which `caller` must own.
    pub fn update_username(&mut self, caller: AccountId, token_id: u32, new_username: String) -> (r:
        Result<(), Error>)
        requires
            old(self).wf(),
        ensures
            final(self).wf(),
            final(self)@.tables_agree(),
            (final(self)@, r) == old(self)@.update_username(caller, token_id, new_username@),
    {
        match self.check_owner(&caller, token_id) {
            Err(e) => {
                return Err(e);
            },
            Ok(()) => {},
        }
        self.tokens[token_id as usize].nft.username = new_username;
        let ghost post = old(self)@.update_username(caller, token_id, new_username@).0;
        assert(self@.records =~= post.records);
        assert(self@.owners =~= post.owners);
        Ok(())
    }

    /// Hands out the ownership-change notices recorded since the last call, oldest first.
    pub fn take_events(&mut self) -> (r: Vec<Transfer>)
        requires
            old(self).wf(),
        ensures
            final(self).wf(),
            final(self)@.tables_agree(),
            r@ == old(self)@.events,
            final(self)@ == (RegistryView { events: Seq::empty(), ..old(self)@ }),
    {
        let mut r: Vec<Transfer> = Vec::new();
        core::mem::swap(&mut r, &mut self.events);
        assert(self@.records =~= old(self)@.records);
        assert(self@.owners =~= old(self)@.owners);
        r
    }
}

} // verus!
