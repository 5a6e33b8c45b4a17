use sigmaverse::cybor_nft::events::{
    ErrorKind, LEVEL_UP_EXP_COST, LEVEL_UP_VALUE_FLOOR, MAX_SUPPLY, REFUND_GAS_RESERVE,
    REFUND_NOTE,
};
use sigmaverse::cybor_nft::{
    CyborError, CyborEvents, CyborNFTService, CyborRace, CyborState, CyborTemplate,
    MessageContext, Refund,
};
use sigmaverse::primitives::{ActorId, MessageId, TokenId};
use sigmaverse::storage::Storage;
use sigmaverse::SigmaverseProgram;

fn actor(n: u128) -> ActorId {
    ActorId::new(0, n)
}

fn token(n: u128) -> TokenId {
    TokenId::from_u128(n)
}

fn ctx(sender: ActorId, attached_value: u128, block_height: u32) -> MessageContext {
    MessageContext { sender, attached_value, block_height }
}

fn service() -> CyborNFTService {
    CyborNFTService::init(CyborState::new(), Storage::init())
}

fn rodriguez_price() -> u128 {
    CyborTemplate::rodriguez().price
}

/// Mints one Rodriguez for `who` at `block` and returns its id.
fn mint_one(svc: &mut CyborNFTService, who: ActorId, block: u32) -> TokenId {
    match svc.mint(&ctx(who, rodriguez_price(), block), CyborRace::Rodriguez) {
        Ok(CyborEvents::Minted { value, .. }) => value,
        other => panic!("mint failed: {:?}", other),
    }
}

/// Brings a freshly minted token (minted at `minted_at`) to `level`.
fn raise_to_level(svc: &mut CyborNFTService, who: ActorId, id: TokenId, minted_at: u32, level: u16) {
    let steps = (level - 1) as u32;
    let block = minted_at + steps * (LEVEL_UP_EXP_COST as u32);
    let thawed = svc.unfreeze(&ctx(who, 0, block), id);
    assert_eq!(thawed, Ok(Some(CyborEvents::UnFreeze { from: who, value: id })));
    for _ in 0..steps {
        let up = svc.up_level(&ctx(who, LEVEL_UP_VALUE_FLOOR, block), id);
        assert_eq!(up, Ok(CyborEvents::Uplevel { from: who, value: id }));
    }
}

#[test]
fn test_program() {
    let mut pro = SigmaverseProgram::default();
    let cybor_service = pro.cybor_nft();

    let r = cybor_service.mint(&ctx(actor(1), 0, 0), CyborRace::Nguyen);

    println!("MintRRRRR:::::: {:?}", r);

    assert_eq!((1), 1);
}

#[test]
fn fresh_mint_emits_correct_id() {
    let mut svc = service();
    let a = actor(7);
    let event = svc.mint(&ctx(a, rodriguez_price(), 37), CyborRace::Rodriguez);
    assert_eq!(
        event,
        Ok(CyborEvents::Minted {
            to: a,
            value: token(100),
            next_id: token(101),
            len_by_minted: 1,
            len_by_group_user: 1,
        })
    );
    let metadata = svc.cybor_metadata(token(100));
    assert_eq!(metadata.mint_at, 37);
    assert!(!metadata.is_have_finishing_skill);
    assert_eq!(metadata.race, CyborRace::Rodriguez);
    assert_eq!(metadata.cybor_template, CyborTemplate::rodriguez());
    assert_eq!(metadata.image, "");
    let record = svc.state().get(token(100)).expect("minted");
    assert_eq!(record.dynamic.level, 1);
    assert_eq!(record.dynamic.grade, 1);
    assert_eq!(record.dynamic.lucky, 1);
    assert_eq!(record.dynamic.exp, 0);
    assert_eq!(record.dynamic.start_at, 37);
    assert!(record.frozen);
    assert_eq!(svc.storage().owner_of(token(100)), Some(a));
    assert_eq!(svc.storage().tokens_of(a), Some(vec![token(100)]));
    assert_eq!(svc.state().next_token_id(), token(101));
}

#[test]
fn lucky_mint_at_block_100() {
    let mut svc = service();
    let id = mint_one(&mut svc, actor(7), 100);
    assert!(svc.cybor_metadata(id).is_have_finishing_skill);
    let other = mint_one(&mut svc, actor(7), 101);
    assert!(!svc.cybor_metadata(other).is_have_finishing_skill);
    let at_zero = mint_one(&mut svc, actor(7), 0);
    assert!(svc.cybor_metadata(at_zero).is_have_finishing_skill);
}

#[test]
fn freeze_unfreeze_accrual() {
    let mut svc = service();
    let a = actor(3);
    let id = mint_one(&mut svc, a, 10);
    assert_eq!(id, token(100));

    let thawed = svc.unfreeze(&ctx(a, 0, 30), id);
    assert_eq!(thawed, Ok(Some(CyborEvents::UnFreeze { from: a, value: id })));
    {
        let record = svc.state().get(id).expect("alive");
        assert_eq!(record.dynamic.exp, 20);
        assert_eq!(record.dynamic.start_at, 0);
        assert!(!record.frozen);
    }
    assert!(!svc.cybor_info(&ctx(a, 0, 30), id).is_freeze);

    let frozen = svc.freeze(&ctx(a, 0, 50), id);
    assert_eq!(frozen, Ok(Some(CyborEvents::Freeze { from: a, value: id })));
    {
        let record = svc.state().get(id).expect("alive");
        assert_eq!(record.dynamic.exp, 20);
        assert_eq!(record.dynamic.start_at, 50);
        assert!(record.frozen);
    }

    let info = svc.cybor_info(&ctx(a, 0, 75), id);
    assert_eq!(info.exp, 45);
    assert!(info.is_freeze);
}

#[test]
fn freeze_of_a_fresh_token_does_nothing() {
    let mut svc = service();
    let a = actor(3);
    let id = mint_one(&mut svc, a, 10);
    assert_eq!(svc.freeze(&ctx(a, 0, 20), id), Ok(None));
    assert_eq!(svc.state().get(id).expect("alive").dynamic.start_at, 10);
}

#[test]
fn freeze_and_unfreeze_by_a_stranger_do_nothing() {
    let mut svc = service();
    let a = actor(3);
    let b = actor(4);
    let id = mint_one(&mut svc, a, 10);
    assert_eq!(svc.unfreeze(&ctx(b, 0, 30), id), Ok(None));
    assert_eq!(svc.freeze(&ctx(b, 0, 30), id), Ok(None));
    assert_eq!(svc.unfreeze(&ctx(a, 0, 30), token(999)), Ok(None));
    assert_eq!(svc.freeze(&ctx(a, 0, 30), token(999)), Ok(None));
    let record = svc.state().get(id).expect("alive");
    assert_eq!(record.dynamic.exp, 0);
    assert_eq!(record.dynamic.start_at, 10);
    assert!(record.frozen);
}

#[test]
fn freeze_then_unfreeze_in_one_block_adds_nothing() {
    let mut svc = service();
    let a = actor(3);
    let id = mint_one(&mut svc, a, 10);
    assert!(svc.unfreeze(&ctx(a, 0, 30), id).is_ok());
    assert_eq!(
        svc.freeze(&ctx(a, 0, 50), id),
        Ok(Some(CyborEvents::Freeze { from: a, value: id }))
    );
    assert_eq!(
        svc.unfreeze(&ctx(a, 0, 50), id),
        Ok(Some(CyborEvents::UnFreeze { from: a, value: id }))
    );
    let record = svc.state().get(id).expect("alive");
    assert_eq!(record.dynamic.exp, 20);
    assert_eq!(record.dynamic.start_at, 0);
}

#[test]
fn unfreeze_before_the_window_began_is_out_of_range() {
    let mut svc = service();
    let a = actor(3);
    let id = mint_one(&mut svc, a, 50);
    assert_eq!(svc.unfreeze(&ctx(a, 0, 10), id), Err(CyborError::OutOfRange));
    let record = svc.state().get(id).expect("alive");
    assert_eq!(record.dynamic.start_at, 50);
    assert!(record.frozen);
}

#[test]
fn level_up() {
    let mut svc = service();
    let a = actor(5);
    let id = mint_one(&mut svc, a, 10);
    assert!(svc.unfreeze(&ctx(a, 0, 10 + 864_000), id).is_ok());
    assert_eq!(svc.state().get(id).expect("alive").dynamic.exp, 864_000);

    let up = svc.up_level(&ctx(a, 101_000_000_000_000, 864_010), id);
    assert_eq!(up, Ok(CyborEvents::Uplevel { from: a, value: id }));
    let record = svc.state().get(id).expect("alive");
    assert_eq!(record.dynamic.level, 2);
    assert_eq!(record.dynamic.grade, 0);
    assert_eq!(record.dynamic.exp, 0);
}

#[test]
fn level_up_needs_the_whole_cost() {
    let mut svc = service();
    let a = actor(5);
    let id = mint_one(&mut svc, a, 10);
    assert!(svc.unfreeze(&ctx(a, 0, 10 + 864_000 - 1), id).is_ok());
    assert_eq!(svc.state().get(id).expect("alive").dynamic.exp, 864_000 - 1);
    assert_eq!(
        svc.up_level(&ctx(a, LEVEL_UP_VALUE_FLOOR, 900_000), id),
        Err(CyborError::NotEnoughExp)
    );
    let record = svc.state().get(id).expect("alive");
    assert_eq!(record.dynamic.level, 1);
    assert_eq!(record.dynamic.exp, 863_999);
}

#[test]
fn level_up_needs_value_and_ownership() {
    let mut svc = service();
    let a = actor(5);
    let b = actor(6);
    let id = mint_one(&mut svc, a, 10);
    assert!(svc.unfreeze(&ctx(a, 0, 10 + 864_000), id).is_ok());
    assert_eq!(
        svc.up_level(&ctx(a, LEVEL_UP_VALUE_FLOOR - 1, 900_000), id),
        Err(CyborError::NotEnoughValue)
    );
    assert_eq!(
        svc.up_level(&ctx(b, LEVEL_UP_VALUE_FLOOR, 900_000), id),
        Err(CyborError::NotOwner)
    );
    assert_eq!(
        svc.up_level(&ctx(a, LEVEL_UP_VALUE_FLOOR, 900_000), token(555)),
        Err(CyborError::NotMinted)
    );
    assert_eq!(svc.state().get(id).expect("alive").dynamic.level, 1);
}

#[test]
fn grade_is_a_tenth_of_the_level() {
    let mut svc = service();
    let a = actor(5);
    let id = mint_one(&mut svc, a, 1);
    raise_to_level(&mut svc, a, id, 1, 9);
    assert_eq!(svc.state().get(id).expect("alive").dynamic.grade, 0);
    assert!(svc.freeze(&ctx(a, 0, 8 * 864_000 + 1), id).is_ok());
    assert!(svc.unfreeze(&ctx(a, 0, 9 * 864_000 + 1), id).is_ok());
    assert!(svc.up_level(&ctx(a, LEVEL_UP_VALUE_FLOOR, 0), id).is_ok());
    let record = svc.state().get(id).expect("alive");
    assert_eq!(record.dynamic.level, 10);
    assert_eq!(record.dynamic.grade, 1);
    assert_eq!(record.dynamic.exp, 0);
}

#[test]
fn burn_at_grade_3() {
    let mut svc = service();
    let a = actor(9);
    let id = mint_one(&mut svc, a, 5);
    raise_to_level(&mut svc, a, id, 5, 30);
    assert_eq!(svc.state().get(id).expect("alive").dynamic.grade, 3);

    let price = rodriguez_price();
    let burn_ctx = ctx(a, 0, 26_000_000);
    let due = svc.refund_due(&burn_ctx, id, price);
    assert_eq!(
        due,
        Ok(Some(Refund {
            to: a,
            payload: "CONGRATS! Please claim the refund in 24 hours!",
            gas_limit: 2_880_000,
            value: price - 2_880_000,
        }))
    );
    assert_eq!(REFUND_NOTE, "CONGRATS! Please claim the refund in 24 hours!");
    assert_eq!(REFUND_GAS_RESERVE, 60 * 60 * 24 / 3 * 100);

    let msg_id = MessageId::new(1, 2);
    let burned = svc.burn(&burn_ctx, id, price, Some(msg_id));
    assert_eq!(burned, Ok(CyborEvents::Burned { from: a, value: id, msg_id }));
    assert_ne!(msg_id, MessageId::zero());

    assert!(svc.state().get(id).is_none());
    assert_eq!(svc.state().len(), 0);
    assert_eq!(svc.storage().owner_of(id), None);
    assert_eq!(svc.storage().approved(id), None);
    assert_eq!(svc.storage().tokens_of(a), Some(vec![]));
    assert!(!svc.cybor_info(&burn_ctx, id).is_freeze);
}

#[test]
fn burn_at_grade_3_fails_without_balance_or_send() {
    let mut svc = service();
    let a = actor(9);
    let id = mint_one(&mut svc, a, 5);
    raise_to_level(&mut svc, a, id, 5, 30);
    let price = rodriguez_price();
    let burn_ctx = ctx(a, 0, 26_000_000);
    assert_eq!(svc.refund_due(&burn_ctx, id, price - 1), Err(CyborError::InsufficientBalance));
    assert_eq!(
        svc.burn(&burn_ctx, id, price - 1, Some(MessageId::new(0, 1))),
        Err(CyborError::InsufficientBalance)
    );
    assert_eq!(svc.burn(&burn_ctx, id, price, None), Err(CyborError::SendFailed));
    assert!(svc.state().get(id).is_some());
    assert_eq!(svc.storage().owner_of(id), Some(a));
}

#[test]
fn burn_at_grade_2_sends_no_refund() {
    let mut svc = service();
    let a = actor(9);
    let id = mint_one(&mut svc, a, 5);
    raise_to_level(&mut svc, a, id, 5, 29);
    assert_eq!(svc.state().get(id).expect("alive").dynamic.grade, 2);
    let burn_ctx = ctx(a, 0, 26_000_000);
    assert_eq!(svc.refund_due(&burn_ctx, id, 0), Ok(None));
    let burned = svc.burn(&burn_ctx, id, 0, None);
    assert_eq!(
        burned,
        Ok(CyborEvents::Burned { from: a, value: id, msg_id: MessageId::zero() })
    );
    assert!(svc.state().get(id).is_none());
}

#[test]
fn unauthorized_burn() {
    let mut svc = service();
    let a = actor(1);
    let b = actor(2);
    let id = mint_one(&mut svc, a, 5);
    let result = svc.burn(&ctx(b, 0, 6), id, u128::MAX, Some(MessageId::new(0, 1)));
    assert_eq!(result, Err(CyborError::NotOwner));
    assert!(svc.state().get(id).is_some());
    assert_eq!(svc.state().len(), 1);
    assert_eq!(svc.storage().owner_of(id), Some(a));
    assert_eq!(svc.storage().tokens_of(a), Some(vec![id]));
    assert_eq!(svc.storage().tokens_of(b), None);
}

#[test]
fn burn_of_an_unknown_token() {
    let mut svc = service();
    let a = actor(1);
    assert_eq!(svc.burn(&ctx(a, 0, 6), token(100), 0, None), Err(CyborError::NotMinted));
    assert_eq!(svc.refund_due(&ctx(a, 0, 6), token(100), 0), Err(CyborError::NotMinted));
}

#[test]
fn mint_price_boundary() {
    let mut svc = service();
    let a = actor(1);
    let price = rodriguez_price();
    assert_eq!(
        svc.mint(&ctx(a, price - 1, 1), CyborRace::Rodriguez),
        Err(CyborError::IncorrectValue { attached: price - 1, price })
    );
    assert_eq!(svc.state().len(), 0);
    assert_eq!(svc.state().next_token_id(), token(100));
    assert!(svc.mint(&ctx(a, price, 1), CyborRace::Rodriguez).is_ok());
    assert!(svc.mint(&ctx(a, price + 1, 1), CyborRace::Rodriguez).is_ok());
    let nguyen = CyborTemplate::nguyen().price;
    assert_eq!(
        svc.mint(&ctx(a, nguyen - 1, 1), CyborRace::Nguyen),
        Err(CyborError::IncorrectValue { attached: nguyen - 1, price: nguyen })
    );
    assert!(svc.mint(&ctx(a, nguyen, 1), CyborRace::Nguyen).is_ok());
    assert_eq!(svc.state().len(), 3);
}

#[test]
fn mint_by_the_zero_address() {
    let mut svc = service();
    assert_eq!(
        svc.mint(&ctx(ActorId::zero(), u128::MAX, 1), CyborRace::Rodriguez),
        Err(CyborError::ZeroAddress)
    );
    assert_eq!(svc.state().len(), 0);
}

#[test]
fn minting_the_100001st_token_fails() {
    let mut svc = service();
    let price = rodriguez_price();
    assert_eq!(svc.max_supply(), 100_000);
    assert_eq!(MAX_SUPPLY, 100_000);
    for i in 0..100_000u128 {
        let who = actor(1 + i % 7);
        let event = svc.mint(&ctx(who, price, 3), CyborRace::Rodriguez);
        assert!(event.is_ok());
    }
    assert_eq!(svc.state().len(), 100_000);
    assert_eq!(
        svc.mint(&ctx(actor(1), price, 3), CyborRace::Rodriguez),
        Err(CyborError::SupplyExhausted)
    );
    assert_eq!(svc.state().len(), 100_000);
    assert_eq!(svc.state().next_token_id(), token(100_100));
    // A burn makes room again.
    assert!(svc.burn(&ctx(actor(1), 0, 4), token(100), 0, None).is_ok());
    assert_eq!(
        svc.mint(&ctx(actor(1), price, 5), CyborRace::Rodriguez),
        Ok(CyborEvents::Minted {
            to: actor(1),
            value: token(100_100),
            next_id: token(100_101),
            len_by_minted: 100_000,
            len_by_group_user: 7,
        })
    );
}

#[test]
fn mint_then_burn_restores_the_ledger() {
    let mut svc = service();
    let a = actor(1);
    let b = actor(2);
    mint_one(&mut svc, b, 1);
    let before = svc.state().len();
    let id = mint_one(&mut svc, a, 2);
    assert_eq!(svc.state().len(), before + 1);
    let burned = svc.burn(&ctx(a, 0, 3), id, 0, None);
    assert_eq!(
        burned,
        Ok(CyborEvents::Burned { from: a, value: id, msg_id: MessageId::zero() })
    );
    assert_eq!(svc.state().len(), before);
    assert!(svc.state().get(id).is_none());
    assert_eq!(svc.storage().owner_of(id), None);
    assert_eq!(svc.storage().approved(id), None);
    assert_eq!(svc.storage().tokens_of(a), Some(vec![]));
    assert_eq!(svc.storage().owner_count(), before);
    // The emptied entry of `a` still counts as an entry, and the id is not
    // handed out again.
    assert_eq!(svc.storage().holder_count(), 2);
    assert_eq!(mint_one(&mut svc, a, 4), token(102));
}

#[test]
fn the_tables_stay_in_step() {
    let mut svc = service();
    let a = actor(1);
    let b = actor(2);
    let first = mint_one(&mut svc, a, 1);
    let second = mint_one(&mut svc, b, 2);
    let third = mint_one(&mut svc, a, 3);
    assert!(svc.burn(&ctx(b, 0, 4), second, 0, None).is_ok());
    let ids: Vec<TokenId> = svc.all_cybors().iter().map(|entry| entry.0).collect();
    assert_eq!(ids, vec![third, first]);
    assert_eq!(svc.state().token_ids(), vec![third, first]);
    assert_eq!(svc.state().len(), 2);
    assert_eq!(svc.storage().owner_count(), 2);
    for id in ids {
        let owner = svc.storage().owner_of(id).expect("owned");
        assert!(svc.storage().tokens_of(owner).expect("entry").contains(&id));
        assert!(id.is_below(&svc.state().next_token_id()));
        assert!(svc.state().get(id).is_some());
    }
    assert_eq!(svc.state().next_token_id(), token(103));
}

#[test]
fn a_token_with_an_owner_and_no_cybor_is_an_invariant_violation() {
    let mut storage = Storage::init();
    let a = actor(1);
    storage.set_owner(token(5), a);
    storage.add_token(a, token(5));
    let mut svc = CyborNFTService::init(CyborState::new(), storage);
    assert_eq!(svc.burn(&ctx(a, 0, 1), token(5), 0, None), Err(CyborError::MissingRecord));
    assert_eq!(svc.freeze(&ctx(a, 0, 1), token(5)), Err(CyborError::MissingRecord));
    assert_eq!(svc.unfreeze(&ctx(a, 0, 1), token(5)), Err(CyborError::MissingRecord));
    assert_eq!(
        svc.up_level(&ctx(a, LEVEL_UP_VALUE_FLOOR, 1), token(5)),
        Err(CyborError::MissingRecord)
    );
    assert_eq!(svc.storage().owner_of(token(5)), Some(a));
}

#[test]
fn error_kinds() {
    assert_eq!(CyborError::ZeroAddress.kind(), ErrorKind::Authorization);
    assert_eq!(CyborError::NotOwner.kind(), ErrorKind::Authorization);
    assert_eq!(CyborError::SupplyExhausted.kind(), ErrorKind::Precondition);
    assert_eq!(
        CyborError::IncorrectValue { attached: 1, price: 2 }.kind(),
        ErrorKind::Precondition
    );
    assert_eq!(CyborError::NotMinted.kind(), ErrorKind::Precondition);
    assert_eq!(CyborError::InsufficientBalance.kind(), ErrorKind::Precondition);
    assert_eq!(CyborError::NotEnoughValue.kind(), ErrorKind::Precondition);
    assert_eq!(CyborError::NotEnoughExp.kind(), ErrorKind::Precondition);
    assert_eq!(CyborError::OutOfRange.kind(), ErrorKind::Precondition);
    assert_eq!(CyborError::SendFailed.kind(), ErrorKind::HostIo);
    assert_eq!(CyborError::MissingRecord.kind(), ErrorKind::InvariantViolation);
}

#[test]
fn program_at_genesis() {
    let mut program = SigmaverseProgram::default();
    let svc = program.cybor_nft();
    assert_eq!(svc.state().len(), 0);
    assert_eq!(svc.state().next_token_id(), token(100));
    assert_eq!(svc.storage().owner_count(), 0);
    assert_eq!(svc.storage().holder_count(), 0);
    let id = mint_one(svc, actor(1), 1);
    assert_eq!(id, token(100));
    assert_eq!(program.cybor_nft().state().len(), 1);
}

#[test]
fn service_hands_its_stores_back() {
    let mut svc = service();
    let a = actor(1);
    let id = mint_one(&mut svc, a, 1);
    let (state, storage) = svc.into_parts();
    assert_eq!(state.len(), 1);
    assert_eq!(storage.owner_of(id), Some(a));
    let svc = CyborNFTService::init(state, storage);
    assert_eq!(svc.cybor_metadata(id).mint_at, 1);
}
