use sigmaverse::cybor_nft::listing::listing_of;
use sigmaverse::cybor_nft::CyborState;
use sigmaverse::primitives::{ActorId, MessageId, TokenId};
use sigmaverse::storage::Storage;

fn store() -> Storage {
    Storage::init()
}

#[test]
fn token_id_counts_up() {
    assert_eq!(TokenId::from_u128(100).checked_next(), Some(TokenId::from_u128(101)));
    assert_eq!(TokenId::from_u128(0).checked_next(), Some(TokenId::new(0, 1)));
    assert_eq!(TokenId::new(0, u128::MAX).checked_next(), Some(TokenId::new(1, 0)));
    assert_eq!(TokenId::new(7, u128::MAX).checked_next(), Some(TokenId::new(8, 0)));
    assert_eq!(TokenId::new(u128::MAX, 5).checked_next(), Some(TokenId::new(u128::MAX, 6)));
    assert_eq!(TokenId::new(u128::MAX, u128::MAX).checked_next(), None);
}

#[test]
fn token_id_order() {
    let small = TokenId::new(0, u128::MAX);
    let big = TokenId::new(1, 0);
    assert!(small.is_below(&big));
    assert!(!big.is_below(&small));
    assert!(!big.is_below(&big));
    assert!(TokenId::from_u128(3).is_below(&TokenId::from_u128(4)));
    assert!(!TokenId::from_u128(4).is_below(&TokenId::from_u128(3)));
    assert!(TokenId::new(1, 9).is_below(&TokenId::new(2, 0)));
}

#[test]
fn zero_ids() {
    assert!(ActorId::zero().is_zero());
    assert!(!ActorId::new(0, 1).is_zero());
    assert!(!ActorId::new(1, 0).is_zero());
    assert_eq!(ActorId::zero(), ActorId::new(0, 0));
    assert_eq!(MessageId::zero(), MessageId::new(0, 0));
}

#[test]
fn listing_sorts_and_drops_repeats() {
    let t = |n: u128| TokenId::from_u128(n);
    assert_eq!(listing_of(&vec![]), vec![]);
    assert_eq!(listing_of(&vec![t(5)]), vec![t(5)]);
    assert_eq!(
        listing_of(&vec![t(3), t(9), t(1), t(9), t(4), t(3)]),
        vec![t(9), t(4), t(3), t(1)]
    );
    assert_eq!(
        listing_of(&vec![TokenId::new(0, u128::MAX), TokenId::new(2, 0), TokenId::new(1, 7)]),
        vec![TokenId::new(2, 0), TokenId::new(1, 7), TokenId::new(0, u128::MAX)]
    );
    assert_eq!(listing_of(&vec![t(1), t(2), t(3), t(4)]), vec![t(4), t(3), t(2), t(1)]);
}

#[test]
fn empty_token_store() {
    let state = CyborState::new();
    assert_eq!(state.len(), 0);
    assert_eq!(state.next_token_id(), TokenId::from_u128(100));
    assert!(state.get(TokenId::from_u128(100)).is_none());
    assert!(state.token_ids().is_empty());
}

#[test]
fn empty_storage() {
    let storage = store();
    assert_eq!(storage.owner_count(), 0);
    assert_eq!(storage.holder_count(), 0);
    assert!(storage.owners().is_empty());
}

#[test]
fn storage_owners() {
    let mut storage = store();
    let a = ActorId::new(1, 1);
    let b = ActorId::new(0, 2);
    let t = |n: u128| TokenId::from_u128(n);
    storage.set_owner(t(7), a);
    storage.set_owner(t(3), b);
    storage.set_owner(TokenId::new(1, 0), b);
    assert_eq!(storage.owner_count(), 3);
    assert_eq!(storage.owner_of(t(7)), Some(a));
    assert_eq!(storage.owner_of(t(3)), Some(b));
    assert_eq!(storage.owner_of(t(4)), None);
    // Ids that differ in the high half only are different ids.
    assert_eq!(storage.owner_of(TokenId::new(1, 0)), Some(b));
    assert_eq!(storage.owner_of(TokenId::new(0, 0)), None);
    assert_eq!(storage.owners(), vec![(TokenId::new(1, 0), b), (t(7), a), (t(3), b)]);

    storage.set_owner(t(7), b);
    assert_eq!(storage.owner_count(), 3);
    assert_eq!(storage.owner_of(t(7)), Some(b));

    storage.remove_owner(t(3));
    storage.remove_owner(t(99));
    assert_eq!(storage.owner_count(), 2);
    assert_eq!(storage.owner_of(t(3)), None);
    assert_eq!(storage.owners(), vec![(TokenId::new(1, 0), b), (t(7), b)]);
}

#[test]
fn storage_holdings() {
    let mut storage = store();
    let a = ActorId::new(1, 1);
    let b = ActorId::new(1, 2);
    let t = |n: u128| TokenId::from_u128(n);
    assert_eq!(storage.tokens_of(a), None);
    storage.add_token(a, t(5));
    storage.add_token(a, t(9));
    storage.add_token(a, t(5));
    storage.add_token(b, t(6));
    assert_eq!(storage.holder_count(), 2);
    assert_eq!(storage.tokens_of(a), Some(vec![t(9), t(5)]));
    assert_eq!(storage.tokens_of(b), Some(vec![t(6)]));

    storage.remove_token(a, t(9));
    storage.remove_token(a, t(1234));
    assert_eq!(storage.tokens_of(a), Some(vec![t(5)]));
    storage.remove_token(b, t(6));
    assert_eq!(storage.tokens_of(b), Some(vec![]));
    assert_eq!(storage.holder_count(), 2);

    // An actor without an entry gets none by a removal.
    let c = ActorId::new(0, 3);
    storage.remove_token(c, t(5));
    assert_eq!(storage.tokens_of(c), None);
    assert_eq!(storage.holder_count(), 2);
}

#[test]
fn storage_approvals() {
    let mut storage = store();
    let a = ActorId::new(1, 1);
    let b = ActorId::new(1, 2);
    let t = |n: u128| TokenId::from_u128(n);
    assert_eq!(storage.approved(t(5)), None);
    storage.approve(t(5), a);
    assert_eq!(storage.approved(t(5)), Some(a));
    storage.approve(t(5), b);
    assert_eq!(storage.approved(t(5)), Some(b));
    assert_eq!(storage.owner_of(t(5)), None);
    storage.clear_approval(t(5));
    assert_eq!(storage.approved(t(5)), None);
}
