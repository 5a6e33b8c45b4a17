//! The hash tables that hold the ledger's entries.
//!
//! The tables are `gstd::collections::HashMap` and `HashSet`. Verus does not
//! read them: each table type below hides one, a spec function without a body
//! names what the table holds, and each function states, without proof, what
//! one method of the outside collection does to those contents. Every table is
//! keyed by the two halves of a 256-bit identifier, a pair of integers.

use vstd::prelude::*;
use gstd::collections::{HashMap, HashSet};
use crate::cybor_nft::record::CyborRecord;
use crate::primitives::{ActorId, TokenId};

verus! {

/// `n` is the number of elements of `keys`, a finite set.
pub open spec fn counts<K>(n: usize, keys: Set<K>) -> bool {
    keys.finite() && keys.len() == n
}

// ---------------------------------------------------------------------------
// Token id -> Cybor record
// ---------------------------------------------------------------------------

/// A `HashMap` from token id to Cybor record.
#[verifier::external_body]
pub struct CyborTable {
    inner: HashMap<(u128, u128), CyborRecord>,
}

/// What a `CyborTable` holds.
pub uninterp spec fn cybor_table_entries(table: CyborTable) -> Map<TokenId, CyborRecord>;

/// `HashMap::new`: the new table holds nothing.
#[verifier::external_body]
pub(crate) fn cybor_table_new() -> (table: CyborTable)
    ensures
        cybor_table_entries(table).dom() == Set::<TokenId>::empty(),
{
    CyborTable { inner: HashMap::new() }
}

/// `HashMap::len`: the number of entries, which is finite.
#[verifier::external_body]
pub(crate) fn cybor_table_len(table: &CyborTable) -> (n: usize)
    ensures
        counts(n, cybor_table_entries(*table).dom()),
{
    table.inner.len()
}

/// `HashMap::get`: the record stored under `id`, if there is one.
#[verifier::external_body]
pub(crate) fn cybor_table_get<'a>(table: &'a CyborTable, id: TokenId) -> (found: Option<
    &'a CyborRecord,
>)
    ensures
        found is Some <==> cybor_table_entries(*table).contains_key(id),
        found matches Some(record) ==> *record == cybor_table_entries(*table)[id],
{
    table.inner.get(&(id.hi, id.lo))
}

/// `HashMap::insert`: afterwards `id` maps to `record` and every other entry
/// is as before.
#[verifier::external_body]
pub(crate) fn cybor_table_insert(table: &mut CyborTable, id: TokenId, record: CyborRecord)
    ensures
        cybor_table_entries(*final(table)) == cybor_table_entries(*old(table)).insert(id, record),
{
    table.inner.insert((id.hi, id.lo), record);
}

/// `HashMap::remove`: afterwards `id` has no entry and every other entry is
/// as before; the record that `id` mapped to before is returned.
#[verifier::external_body]
pub(crate) fn cybor_table_remove(table: &mut CyborTable, id: TokenId) -> (prev: Option<
    CyborRecord,
>)
    ensures
        cybor_table_entries(*final(table)) == cybor_table_entries(*old(table)).remove(id),
        prev is Some <==> cybor_table_entries(*old(table)).contains_key(id),
        prev matches Some(r) ==> r == cybor_table_entries(*old(table))[id],
{
    table.inner.remove(&(id.hi, id.lo))
}

/// `HashMap::keys`: every key once, in no stated order.
#[verifier::external_body]
pub(crate) fn cybor_table_ids(table: &CyborTable) -> (ids: Vec<TokenId>)
    ensures
        ids@.no_duplicates(),
        ids@.to_set() == cybor_table_entries(*table).dom(),
{
    table.inner.keys().map(|key| TokenId::new(key.0, key.1)).collect()
}

// ---------------------------------------------------------------------------
// Token id -> actor
// ---------------------------------------------------------------------------

/// A `HashMap` from token id to actor.
#[verifier::external_body]
pub struct ActorTable {
    inner: HashMap<(u128, u128), ActorId>,
}

/// What an `ActorTable` holds.
pub uninterp spec fn actor_table_entries(table: ActorTable) -> Map<TokenId, ActorId>;

/// `HashMap::new`: the new table holds nothing.
#[verifier::external_body]
pub(crate) fn actor_table_new() -> (table: ActorTable)
    ensures
        actor_table_entries(table).dom() == Set::<TokenId>::empty(),
{
    ActorTable { inner: HashMap::new() }
}

/// `HashMap::len`: the number of entries, which is finite.
#[verifier::external_body]
pub(crate) fn actor_table_len(table: &ActorTable) -> (n: usize)
    ensures
        counts(n, actor_table_entries(*table).dom()),
{
    table.inner.len()
}

/// `HashMap::get`: the actor stored under `id`, if there is one.
#[verifier::external_body]
pub(crate) fn actor_table_get(table: &ActorTable, id: TokenId) -> (found: Option<ActorId>)
    ensures
        found is Some <==> actor_table_entries(*table).contains_key(id),
        found matches Some(actor) ==> actor == actor_table_entries(*table)[id],
{
    table.inner.get(&(id.hi, id.lo)).copied()
}

/// `HashMap::insert`: afterwards `id` maps to `actor` and every other entry is
/// as before.
#[verifier::external_body]
pub(crate) fn actor_table_insert(table: &mut ActorTable, id: TokenId, actor: ActorId)
    ensures
        actor_table_entries(*final(table)) == actor_table_entries(*old(table)).insert(id, actor),
{
    table.inner.insert((id.hi, id.lo), actor);
}

/// `HashMap::remove`: afterwards `id` has no entry and every other entry is
/// as before.
#[verifier::external_body]
pub(crate) fn actor_table_remove(table: &mut ActorTable, id: TokenId)
    ensures
        actor_table_entries(*final(table)) == actor_table_entries(*old(table)).remove(id),
{
    table.inner.remove(&(id.hi, id.lo));
}

/// `HashMap::keys`: every key once, in no stated order.
#[verifier::external_body]
pub(crate) fn actor_table_ids(table: &ActorTable) -> (ids: Vec<TokenId>)
    ensures
        ids@.no_duplicates(),
        ids@.to_set() == actor_table_entries(*table).dom(),
{
    table.inner.keys().map(|key| TokenId::new(key.0, key.1)).collect()
}

// ---------------------------------------------------------------------------
// Set of token ids
// ---------------------------------------------------------------------------

/// A `HashSet` of token ids.
#[verifier::external_body]
pub struct TokenSet {
    inner: HashSet<(u128, u128)>,
}

/// What a `TokenSet` holds.
pub uninterp spec fn token_set_items(set: TokenSet) -> Set<TokenId>;

/// `HashSet::new`: the new set holds nothing.
#[verifier::external_body]
pub(crate) fn token_set_new() -> (set: TokenSet)
    ensures
        token_set_items(set) == Set::<TokenId>::empty(),
{
    TokenSet { inner: HashSet::new() }
}

/// `HashSet::insert`: afterwards the set holds `id` and what it held before.
#[verifier::external_body]
pub(crate) fn token_set_insert(set: &mut TokenSet, id: TokenId)
    ensures
        token_set_items(*final(set)) == token_set_items(*old(set)).insert(id),
{
    set.inner.insert((id.hi, id.lo));
}

/// `HashSet::remove`: afterwards the set holds what it held before but `id`.
#[verifier::external_body]
pub(crate) fn token_set_remove(set: &mut TokenSet, id: TokenId)
    ensures
        token_set_items(*final(set)) == token_set_items(*old(set)).remove(id),
{
    set.inner.remove(&(id.hi, id.lo));
}

/// `HashSet::iter`: every item once, in no stated order.
#[verifier::external_body]
pub(crate) fn token_set_ids(set: &TokenSet) -> (ids: Vec<TokenId>)
    ensures
        ids@.no_duplicates(),
        ids@.to_set() == token_set_items(*set),
{
    set.inner.iter().map(|key| TokenId::new(key.0, key.1)).collect()
}

// ---------------------------------------------------------------------------
// Actor -> set of token ids
// ---------------------------------------------------------------------------

/// A `HashMap` from actor to the set of the actor's tokens.
#[verifier::external_body]
pub struct HoldingTable {
    inner: HashMap<(u128, u128), TokenSet>,
}

/// What a `HoldingTable` holds.
pub uninterp spec fn holding_table_entries(table: HoldingTable) -> Map<ActorId, TokenSet>;

/// `HashMap::new`: the new table holds nothing.
#[verifier::external_body]
pub(crate) fn holding_table_new() -> (table: HoldingTable)
    ensures
        holding_table_entries(table).dom() == Set::<ActorId>::empty(),
{
    HoldingTable { inner: HashMap::new() }
}

/// `HashMap::len`: the number of entries, which is finite.
#[verifier::external_body]
pub(crate) fn holding_table_len(table: &HoldingTable) -> (n: usize)
    ensures
        counts(n, holding_table_entries(*table).dom()),
{
    table.inner.len()
}

/// `HashMap::get`: the set stored under `actor`, if there is one.
#[verifier::external_body]
pub(crate) fn holding_table_get<'a>(table: &'a HoldingTable, actor: ActorId) -> (found: Option<
    &'a TokenSet,
>)
    ensures
        found is Some <==> holding_table_entries(*table).contains_key(actor),
        found matches Some(set) ==> *set == holding_table_entries(*table)[actor],
{
    table.inner.get(&(actor.hi, actor.lo))
}

/// `HashMap::insert`: afterwards `actor` maps to `set` and every other entry
/// is as before.
#[verifier::external_body]
pub(crate) fn holding_table_insert(table: &mut HoldingTable, actor: ActorId, set: TokenSet)
    ensures
        holding_table_entries(*final(table)) == holding_table_entries(*old(table)).insert(
            actor,
            set,
        ),
{
    table.inner.insert((actor.hi, actor.lo), set);
}

/// `HashMap::remove`: afterwards `actor` has no entry and every other entry is
/// as before; the set that `actor` mapped to before is returned.
#[verifier::external_body]
pub(crate) fn holding_table_remove(table: &mut HoldingTable, actor: ActorId) -> (prev: Option<
    TokenSet,
>)
    ensures
        holding_table_entries(*final(table)) == holding_table_entries(*old(table)).remove(actor),
        prev is Some <==> holding_table_entries(*old(table)).contains_key(actor),
        prev matches Some(set) ==> set == holding_table_entries(*old(table))[actor],
{
    table.inner.remove(&(actor.hi, actor.lo))
}

} // verus!
