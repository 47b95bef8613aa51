use vstd::prelude::*;
use crate::account::AccountId;
use crate::token::{Error, NftView, Transfer};

verus! {

/// The abstract registry: the record and owner tables, the next identifier to
/// assign, and the ownership-change notices not yet handed out.
pub struct RegistryView {
    pub records: Map<u32, NftView>,
    pub owners: Map<u32, AccountId>,
    pub next_id: u32,
    pub events: Seq<Transfer>,
}

impl RegistryView {
    /// The registry as constructed.
    pub open spec fn empty() -> RegistryView {
        RegistryView {
            records: Map::empty(),
            owners: Map::empty(),
            next_id: 0,
            events: Seq::empty(),
        }
    }

    /// Both tables hold exactly the identifiers assigned so far.
    pub open spec fn tables_agree(self) -> bool {
        forall|id: u32|
            #![trigger self.records.contains_key(id)]
            #![trigger self.owners.contains_key(id)]
            (self.records.contains_key(id) <==> id < self.next_id) && (self.owners.contains_key(
                id,
            ) <==> id < self.next_id)
    }

    /// Minting by `caller`: the next identifier gets the record and the caller as owner.
    pub open spec fn mint(self, caller: AccountId, username: Seq<char>, item: Seq<char>) -> (
        RegistryView,
        Result<u32, Error>,
    ) {
        let id = self.next_id;
        if self.records.contains_key(id) {
            (self, Err(Error::TokenAlreadyExists))
        } else if id == u32::MAX {
            (self, Err(Error::TokenIdOverflow))
        } else {
            (
                RegistryView {
                    records: self.records.insert(id, NftView { username, item }),
                    owners: self.owners.insert(id, caller),
                    next_id: (id + 1) as u32,
                    events: self.events.push(Transfer { from: None, to: Some(caller), token_id: id }),
                },
                Ok(id),
            )
        }
    }

    /// The refusal, if any, of an owner-only operation by `caller` on `id`.
    pub open spec fn check_owner(self, caller: AccountId, id: u32) -> Option<Error> {
        if !self.owners.contains_key(id) {
            Some(Error::TokenNotFound)
        } else if self.owners[id] != caller {
            Some(Error::NotTokenOwner)
        } else {
            None
        }
    }

    /// Transfer of `id` by `caller` to `to`.
    pub open spec fn transfer(self, caller: AccountId, to: AccountId, id: u32) -> (
        RegistryView,
        Result<(), Error>,
    ) {
        match self.check_owner(caller, id) {
            Some(e) => (self, Err(e)),
            None => (
                RegistryView {
                    owners: self.owners.insert(id, to),
                    events: self.events.push(
                        Transfer { from: Some(caller), to: Some(to), token_id: id },
                    ),
                    ..self
                },
                Ok(()),
            ),
        }
    }

    /// Renaming of the record of `id` by `caller`; the item is kept.
    pub open spec fn update_username(self, caller: AccountId, id: u32, username: Seq<char>) -> (
        RegistryView,
        Result<(), Error>,
    ) {
        match self.check_owner(caller, id) {
            Some(e) => (self, Err(e)),
            None => (
                RegistryView {
                    records: self.records.insert(
                        id,
                        NftView { username, item: self.records[id].item },
                    ),
                    ..self
                },
                Ok(()),
            ),
        }
    }

    /// The record of `id`, if any.
    pub open spec fn get(self, id: u32) -> Option<NftView> {
        if self.records.contains_key(id) {
            Some(self.records[id])
        } else {
            None
        }
    }
}

} // verus!
