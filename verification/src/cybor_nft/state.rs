//! The token store: the Cybor of every live token, and the id that the next
//! mint will hand out.

use vstd::prelude::*;
use super::events::TOKEN_ID_START;
use super::listing::{listing_of, lists};
use super::record::{CyborRecord, CyborRecordView};
use crate::primitives::TokenId;
use crate::tables::{
    counts, cybor_table_entries, cybor_table_get, cybor_table_ids, cybor_table_insert,
    cybor_table_len, cybor_table_new, cybor_table_remove, CyborTable,
};

verus! {

/// The state that the Cybor service keeps between messages.
pub struct CyborState {
    cybors: CyborTable,
    current_cybor_id: TokenId,
}

impl CyborState {
    /// The Cybor of each live token.
    pub closed spec fn records(&self) -> Map<TokenId, CyborRecordView> {
        cybor_table_entries(self.cybors).map_values(|record: CyborRecord| record@)
    }

    /// The id that the next mint hands out.
    pub closed spec fn counter(&self) -> TokenId {
        self.current_cybor_id
    }

    /// The state at genesis: no token, and the counter at its start.
    pub fn new() -> (state: CyborState)
        ensures
            state.records().dom() == Set::<TokenId>::empty(),
            state.counter() == TokenId::from_u128_spec(TOKEN_ID_START),
    {
        let state = CyborState {
            cybors: cybor_table_new(),
            current_cybor_id: TokenId::from_u128(TOKEN_ID_START),
        };
        assert(state.records().dom() =~= cybor_table_entries(state.cybors).dom());
        state
    }

    /// The number of live tokens.
    pub fn len(&self) -> (n: usize)
        ensures
            counts(n, self.records().dom()),
    {
        assert(self.records().dom() =~= cybor_table_entries(self.cybors).dom());
        cybor_table_len(&self.cybors)
    }

    /// The id that the next mint hands out.
    pub fn next_token_id(&self) -> (id: TokenId)
        ensures
            id == self.counter(),
    {
        self.current_cybor_id
    }

    /// The Cybor of a token, if the token is alive.
    pub fn get(&self, id: TokenId) -> (found: Option<&CyborRecord>)
        ensures
            found is Some <==> self.records().contains_key(id),
            found matches Some(record) ==> record@ == self.records()[id],
    {
        cybor_table_get(&self.cybors, id)
    }

    /// The live tokens, newest first.
    pub fn token_ids(&self) -> (ids: Vec<TokenId>)
        ensures
            lists(ids@, self.records().dom()),
    {
        assert(self.records().dom() =~= cybor_table_entries(self.cybors).dom());
        let keys = cybor_table_ids(&self.cybors);
        listing_of(&keys)
    }

    /// Stores a Cybor under a token id, in place of the one that the id had.
    pub(crate) fn insert(&mut self, id: TokenId, record: CyborRecord)
        ensures
            final(self).records() == old(self).records().insert(id, record@),
            final(self).counter() == old(self).counter(),
    {
        cybor_table_insert(&mut self.cybors, id, record);
        assert(self.records() =~= old(self).records().insert(id, record@));
    }

    /// Takes a token's Cybor out of the store.
    pub(crate) fn remove(&mut self, id: TokenId) -> (taken: Option<CyborRecord>)
        ensures
            final(self).records() == old(self).records().remove(id),
            final(self).counter() == old(self).counter(),
            taken is Some <==> old(self).records().contains_key(id),
            taken matches Some(record) ==> record@ == old(self).records()[id],
    {
        let taken = cybor_table_remove(&mut self.cybors, id);
        assert(self.records() =~= old(self).records().remove(id));
        taken
    }

    /// Moves the counter to `next`.
    pub(crate) fn set_counter(&mut self, next: TokenId)
        ensures
            final(self).records() == old(self).records(),
            final(self).counter() == next,
    {
        self.current_cybor_id = next;
    }
}

} // verus!
