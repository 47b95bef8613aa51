use vstd::prelude::*;
use crate::account::AccountId;
use crate::model::RegistryView;
use crate::token::{Error, NftView};

verus! {

/// Applies the mint requests `reqs` (caller, user name, item) in order and
/// collects their results.
pub open spec fn mint_all(s: RegistryView, reqs: Seq<(AccountId, Seq<char>, Seq<char>)>) -> (
    RegistryView,
    Seq<Result<u32, Error>>,
)
    decreases reqs.len(),
{
    if reqs.len() == 0 {
        (s, Seq::empty())
    } else {
        let (t, r) = s.mint(reqs[0].0, reqs[0].1, reqs[0].2);
        let (u, rs) = mint_all(t, reqs.drop_first());
        (u, seq![r] + rs)
    }
}

/// Every operation keeps the record table and the owner table on the same
/// identifiers, namely those below the counter.
pub proof fn lemma_operations_keep_tables_agree(
    s: RegistryView,
    caller: AccountId,
    to: AccountId,
    id: u32,
    username: Seq<char>,
    item: Seq<char>,
)
    requires
        s.tables_agree(),
    ensures
        s.mint(caller, username, item).0.tables_agree(),
        s.transfer(caller, to, id).0.tables_agree(),
        s.update_username(caller, id, username).0.tables_agree(),
{
}

/// Successive mints receive consecutive identifiers, starting at the counter,
/// with no gap and no repeat, until the identifiers run out; every mint after
/// that fails with `TokenIdOverflow`.
pub proof fn lemma_mint_ids_consecutive(
    s: RegistryView,
    reqs: Seq<(AccountId, Seq<char>, Seq<char>)>,
)
    requires
        s.tables_agree(),
    ensures
        mint_all(s, reqs).0.tables_agree(),
        mint_all(s, reqs).1.len() == reqs.len(),
        forall|i: int|
            0 <= i < reqs.len() ==> #[trigger] mint_all(s, reqs).1[i] == if s.next_id + i
                < u32::MAX {
                Ok((s.next_id + i) as u32)
            } else {
                Err(Error::TokenIdOverflow)
            },
    decreases reqs.len(),
{
    if reqs.len() > 0 {
        let (t, r) = s.mint(reqs[0].0, reqs[0].1, reqs[0].2);
        lemma_operations_keep_tables_agree(s, reqs[0].0, reqs[0].0, 0, reqs[0].1, reqs[0].2);
        lemma_mint_ids_consecutive(t, reqs.drop_first());
        let rs = mint_all(t, reqs.drop_first()).1;
        assert forall|i: int| 0 <= i < reqs.len() implies #[trigger] mint_all(s, reqs).1[i]
            == if s.next_id + i < u32::MAX {
            Ok((s.next_id + i) as u32)
        } else {
            Err(Error::TokenIdOverflow)
        } by {
            if i > 0 {
                assert(mint_all(s, reqs).1[i] == rs[i - 1]);
            }
        }
    }
}

/// After a successful mint, reading the new identifier gives back exactly the
/// user name and item that were minted.
pub proof fn lemma_get_after_mint(
    s: RegistryView,
    caller: AccountId,
    username: Seq<char>,
    item: Seq<char>,
)
    requires
        s.tables_agree(),
    ensures
        s.mint(caller, username, item).1 matches Ok(id) ==> s.mint(caller, username, item).0.get(
            id,
        ) == Some(NftView { username, item }),
{
}

/// Right after a mint the minter owns the token: a transfer of it by anyone
/// else fails with `NotTokenOwner`, and one by the minter succeeds.
pub proof fn lemma_minter_owns(
    s: RegistryView,
    caller: AccountId,
    username: Seq<char>,
    item: Seq<char>,
    other: AccountId,
    to: AccountId,
)
    requires
        s.tables_agree(),
        s.mint(caller, username, item).1 is Ok,
    ensures
        ({
            let (t, r) = s.mint(caller, username, item);
            let id = r->Ok_0;
            &&& other != caller ==> t.transfer(other, to, id) == (t, Err::<(), Error>(
                Error::NotTokenOwner,
            ))
            &&& t.transfer(caller, to, id).1 is Ok
        }),
{
}

/// After a successful transfer from `caller` to another identity `to`, a
/// transfer of the token by `caller` fails with `NotTokenOwner` and one by `to`
/// succeeds.
pub proof fn lemma_transfer_moves_ownership(
    s: RegistryView,
    caller: AccountId,
    to: AccountId,
    id: u32,
    next: AccountId,
)
    requires
        s.transfer(caller, to, id).1 is Ok,
        caller != to,
    ensures
        ({
            let t = s.transfer(caller, to, id).0;
            &&& t.transfer(caller, next, id).1 == Err::<(), Error>(Error::NotTokenOwner)
            &&& t.transfer(to, next, id).1 is Ok
        }),
{
}

/// A transfer or a renaming of an identifier that was never minted fails with
/// `TokenNotFound` and changes nothing.
pub proof fn lemma_unminted_not_found(
    s: RegistryView,
    caller: AccountId,
    to: AccountId,
    id: u32,
    username: Seq<char>,
)
    requires
        s.tables_agree(),
        id >= s.next_id,
    ensures
        s.transfer(caller, to, id) == (s, Err::<(), Error>(Error::TokenNotFound)),
        s.update_username(caller, id, username) == (s, Err::<(), Error>(Error::TokenNotFound)),
{
}

/// A renaming changes at most the user name of the named token: every item,
/// every other record, the owners and the counter stay as they were.
pub proof fn lemma_update_changes_only_username(
    s: RegistryView,
    caller: AccountId,
    id: u32,
    username: Seq<char>,
)
    requires
        s.tables_agree(),
    ensures
        ({
            let t = s.update_username(caller, id, username).0;
            &&& t.records.dom() == s.records.dom()
            &&& forall|k: u32| #[trigger]
                s.records.contains_key(k) ==> t.records[k].item == s.records[k].item
            &&& forall|k: u32| #[trigger]
                s.records.contains_key(k) && k != id ==> t.records[k] == s.records[k]
            &&& t.owners == s.owners
            &&& t.next_id == s.next_id
            &&& t.events == s.events
        }),
{
    let t = s.update_username(caller, id, username).0;
    assert(t.records.dom() =~= s.records.dom());
}

/// The item of a token never changes: no operation removes a token or alters
/// its item.
pub proof fn lemma_items_permanent(
    s: RegistryView,
    caller: AccountId,
    to: AccountId,
    id: u32,
    username: Seq<char>,
    item: Seq<char>,
    k: u32,
)
    requires
        s.tables_agree(),
        s.records.contains_key(k),
    ensures
        s.mint(caller, username, item).0.records.contains_key(k),
        s.mint(caller, username, item).0.records[k].item == s.records[k].item,
        s.transfer(caller, to, id).0.records.contains_key(k),
        s.transfer(caller, to, id).0.records[k].item == s.records[k].item,
        s.update_username(caller, id, username).0.records.contains_key(k),
        s.update_username(caller, id, username).0.records[k].item == s.records[k].item,
{
}

/// A renaming by anyone but the owner fails with `NotTokenOwner` and leaves
/// the registry unchanged.
pub proof fn lemma_update_by_non_owner(
    s: RegistryView,
    caller: AccountId,
    id: u32,
    username: Seq<char>,
)
    requires
        s.owners.contains_key(id),
        s.owners[id] != caller,
    ensures
        s.update_username(caller, id, username) == (s, Err::<(), Error>(Error::NotTokenOwner)),
{
}

} // verus!
