//! The base ownership store: who owns each token, which tokens each actor
//! holds, and who is approved for a token.
//!
//! The three tables are kept by whoever changes ownership. This module only
//! changes one entry at a time and promises nothing of how the tables agree;
//! the Cybor service keeps them in step with its own store.

use vstd::prelude::*;
use crate::cybor_nft::listing::{listing_of, lists, tokens_in};
use crate::primitives::{ActorId, TokenId};
use crate::tables::{
    actor_table_entries, actor_table_get, actor_table_ids, actor_table_insert, actor_table_len,
    actor_table_new, actor_table_remove, counts, holding_table_entries, holding_table_get,
    holding_table_insert, holding_table_len, holding_table_new, holding_table_remove,
    token_set_ids, token_set_insert, token_set_items, token_set_new, token_set_remove,
    ActorTable, HoldingTable, TokenSet,
};

verus! {

/// The ownership store.
pub struct Storage {
    owner_by_id: ActorTable,
    tokens_for_owner: HoldingTable,
    token_approvals: ActorTable,
}

/// The ownership store as a mathematical value.
pub struct StorageView {
    /// The owner of each token that has one.
    pub owner_by_id: Map<TokenId, ActorId>,
    /// The tokens of each actor that has an entry (which may be empty).
    pub tokens_for_owner: Map<ActorId, Set<TokenId>>,
    /// The actor approved for each token that has one.
    pub token_approvals: Map<TokenId, ActorId>,
}

/// The tokens that `holdings` gives to `actor`: none where it has no entry.
pub open spec fn held_by(holdings: Map<ActorId, Set<TokenId>>, actor: ActorId) -> Set<TokenId> {
    if holdings.contains_key(actor) {
        holdings[actor]
    } else {
        Set::empty()
    }
}

impl View for Storage {
    type V = StorageView;

    closed spec fn view(&self) -> StorageView {
        StorageView {
            owner_by_id: actor_table_entries(self.owner_by_id),
            tokens_for_owner: holding_table_entries(self.tokens_for_owner).map_values(
                |set: TokenSet| token_set_items(set),
            ),
            token_approvals: actor_table_entries(self.token_approvals),
        }
    }
}

impl Storage {
    /// An empty store.
    pub fn init() -> (storage: Storage)
        ensures
            storage@.owner_by_id.dom() == Set::<TokenId>::empty(),
            storage@.tokens_for_owner.dom() == Set::<ActorId>::empty(),
            storage@.token_approvals.dom() == Set::<TokenId>::empty(),
    {
        let storage = Storage {
            owner_by_id: actor_table_new(),
            tokens_for_owner: holding_table_new(),
            token_approvals: actor_table_new(),
        };
        assert(storage@.tokens_for_owner.dom() =~= holding_table_entries(
            storage.tokens_for_owner,
        ).dom());
        storage
    }

    /// The owner of a token, if it has one.
    pub fn owner_of(&self, id: TokenId) -> (owner: Option<ActorId>)
        ensures
            owner is Some <==> self@.owner_by_id.contains_key(id),
            owner matches Some(actor) ==> actor == self@.owner_by_id[id],
    {
        actor_table_get(&self.owner_by_id, id)
    }

    /// The number of tokens that have an owner.
    pub fn owner_count(&self) -> (n: usize)
        ensures
            counts(n, self@.owner_by_id.dom()),
    {
        actor_table_len(&self.owner_by_id)
    }

    /// The tokens that have an owner, each with its owner, newest first.
    pub fn owners(&self) -> (pairs: Vec<(TokenId, ActorId)>)
        ensures
            lists(tokens_in(pairs@), self@.owner_by_id.dom()),
            forall|i: int| 0 <= i < pairs@.len() ==> pairs@[i].1 == self@.owner_by_id[pairs@[i].0],
    {
        let keys = actor_table_ids(&self.owner_by_id);
        let ids = listing_of(&keys);
        let mut pairs: Vec<(TokenId, ActorId)> = Vec::new();
        let mut i: usize = 0;
        while i < ids.len()
            invariant
                i <= ids.len(),
                lists(ids@, self@.owner_by_id.dom()),
                pairs@.len() == i,
                forall|k: int| 0 <= k < i ==> pairs@[k].0 == ids@[k],
                forall|k: int| 0 <= k < i ==> pairs@[k].1 == self@.owner_by_id[pairs@[k].0],
            decreases ids.len() - i,
        {
            let id = ids[i];
            assert(ids@.to_set().contains(id)) by {
                assert(ids@.contains(ids@[i as int]));
            }
            match actor_table_get(&self.owner_by_id, id) {
                Some(owner) => {
                    pairs.push((id, owner));
                },
                None => {
                    assert(false);
                },
            }
            i = i + 1;
        }
        assert(tokens_in(pairs@) =~= ids@);
        pairs
    }

    /// Makes `actor` the owner of a token.
    pub fn set_owner(&mut self, id: TokenId, actor: ActorId)
        ensures
            final(self)@ == (StorageView {
                owner_by_id: old(self)@.owner_by_id.insert(id, actor),
                ..old(self)@
            }),
    {
        actor_table_insert(&mut self.owner_by_id, id, actor);
    }

    /// Leaves a token without an owner.
    pub fn remove_owner(&mut self, id: TokenId)
        ensures
            final(self)@ == (StorageView {
                owner_by_id: old(self)@.owner_by_id.remove(id),
                ..old(self)@
            }),
    {
        actor_table_remove(&mut self.owner_by_id, id);
    }

    /// The number of actors that have an entry of tokens, empty or not.
    pub fn holder_count(&self) -> (n: usize)
        ensures
            counts(n, self@.tokens_for_owner.dom()),
    {
        assert(self@.tokens_for_owner.dom() =~= holding_table_entries(
            self.tokens_for_owner,
        ).dom());
        holding_table_len(&self.tokens_for_owner)
    }

    /// The tokens of an actor, newest first; `None` where the actor has no
    /// entry.
    pub fn tokens_of(&self, actor: ActorId) -> (tokens: Option<Vec<TokenId>>)
        ensures
            tokens is Some <==> self@.tokens_for_owner.contains_key(actor),
            tokens matches Some(ids) ==> lists(ids@, self@.tokens_for_owner[actor]),
    {
        match holding_table_get(&self.tokens_for_owner, actor) {
            Some(set) => {
                let items = token_set_ids(set);
                Some(listing_of(&items))
            },
            None => None,
        }
    }

    /// Adds a token to an actor's tokens, giving the actor an entry where it
    /// had none.
    pub fn add_token(&mut self, actor: ActorId, id: TokenId)
        ensures
            final(self)@ == (StorageView {
                tokens_for_owner: old(self)@.tokens_for_owner.insert(
                    actor,
                    held_by(old(self)@.tokens_for_owner, actor).insert(id),
                ),
                ..old(self)@
            }),
    {
        let prev = holding_table_remove(&mut self.tokens_for_owner, actor);
        let mut set = match prev {
            Some(set) => set,
            None => token_set_new(),
        };
        token_set_insert(&mut set, id);
        holding_table_insert(&mut self.tokens_for_owner, actor, set);
        assert(self@.tokens_for_owner =~= old(self)@.tokens_for_owner.insert(
            actor,
            held_by(old(self)@.tokens_for_owner, actor).insert(id),
        ));
    }

    /// Takes a token out of an actor's tokens. The actor keeps its entry.
    pub fn remove_token(&mut self, actor: ActorId, id: TokenId)
        ensures
            final(self)@ == (StorageView {
                tokens_for_owner: if old(self)@.tokens_for_owner.contains_key(actor) {
                    old(self)@.tokens_for_owner.insert(
                        actor,
                        old(self)@.tokens_for_owner[actor].remove(id),
                    )
                } else {
                    old(self)@.tokens_for_owner
                },
                ..old(self)@
            }),
    {
        let prev = holding_table_remove(&mut self.tokens_for_owner, actor);
        match prev {
            Some(set) => {
                let mut set = set;
                token_set_remove(&mut set, id);
                holding_table_insert(&mut self.tokens_for_owner, actor, set);
                assert(self@.tokens_for_owner =~= old(self)@.tokens_for_owner.insert(
                    actor,
                    old(self)@.tokens_for_owner[actor].remove(id),
                ));
            },
            None => {
                assert(self@.tokens_for_owner =~= old(self)@.tokens_for_owner);
            },
        }
    }

    /// The actor approved for a token, if there is one.
    pub fn approved(&self, id: TokenId) -> (actor: Option<ActorId>)
        ensures
            actor is Some <==> self@.token_approvals.contains_key(id),
            actor matches Some(a) ==> a == self@.token_approvals[id],
    {
        actor_table_get(&self.token_approvals, id)
    }

    /// Approves `actor` for a token.
    pub fn approve(&mut self, id: TokenId, actor: ActorId)
        ensures
            final(self)@ == (StorageView {
                token_approvals: old(self)@.token_approvals.insert(id, actor),
                ..old(self)@
            }),
    {
        actor_table_insert(&mut self.token_approvals, id, actor);
    }

    /// Leaves a token without an approved actor.
    pub fn clear_approval(&mut self, id: TokenId)
        ensures
            final(self)@ == (StorageView {
                token_approvals: old(self)@.token_approvals.remove(id),
                ..old(self)@
            }),
    {
        actor_table_remove(&mut self.token_approvals, id);
    }
}

} // verus!
