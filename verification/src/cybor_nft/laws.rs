//! What holds of the ledger after every message, and how the operations
//! relate to one another.

use vstd::prelude::*;
use super::cybor_template::{lemma_templates, template_of, CyborRace};
use super::events::{
    CyborError, CyborEvents, MessageContext, LEVEL_UP_EXP_COST, LEVEL_UP_VALUE_FLOOR, MAX_SUPPLY,
    REFUND_GAS_RESERVE, TOKEN_ID_START,
};
use super::ledger::{
    burn_step, freeze_step, mint_step, refund_due, reported, sent_by_owner, unfreeze_step,
    up_level_step, Ledger, Step,
};
use super::record::{CyborDynamic, CyborRecordView};
use crate::primitives::{lemma_successor, word_limit, ActorId, MessageId, TokenId};
use crate::storage::held_by;

verus! {

// ---------------------------------------------------------------------------
// The invariant
// ---------------------------------------------------------------------------

/// Every live token has an owner, and its owner's tokens hold it; and every
/// token with an owner is alive.
pub open spec fn ownership_holds(l: Ledger) -> bool {
    &&& l.owner_by_id.dom() == l.records.dom()
    &&& forall|id: TokenId| #[trigger]
        l.records.contains_key(id) ==> l.tokens_for_owner.contains_key(l.owner_by_id[id])
            && l.tokens_for_owner[l.owner_by_id[id]].contains(id)
}

/// No more Cybors are alive than may be.
pub open spec fn within_supply(l: Ledger) -> bool {
    l.records.len() <= MAX_SUPPLY
}

/// The counter is above the id of every live token, and never below its
/// start.
pub open spec fn counter_ahead(l: Ledger) -> bool {
    &&& l.counter@ >= TOKEN_ID_START
    &&& forall|id: TokenId| #[trigger] l.records.contains_key(id) ==> id@ < l.counter@
}

/// The grade of a Cybor that has risen a level is the tenth of its level,
/// rounded down. A Cybor that never rose is at level 1 and has the grade 1
/// that it was minted with.
pub open spec fn grade_derived(dynamic: CyborDynamic) -> bool {
    &&& dynamic.level >= 1
    &&& dynamic.level == 1 ==> dynamic.grade == 1
    &&& dynamic.level >= 2 ==> dynamic.grade == dynamic.level / 10
}

/// The Cybor carries its race's template, and its grade is derived.
pub open spec fn record_sound(record: CyborRecordView) -> bool {
    &&& record.metadata.cybor_template == template_of(record.metadata.race)
    &&& grade_derived(record.dynamic)
}

/// What holds of the ledger after every message, from genesis on: the
/// ledger is consistent.
pub open spec fn consistent(l: Ledger) -> bool {
    &&& l.finite()
    &&& ownership_holds(l)
    &&& within_supply(l)
    &&& counter_ahead(l)
    &&& forall|id: TokenId| #[trigger] l.records.contains_key(id) ==> record_sound(l.records[id])
}

/// The metadata and the dynamic state are kept for the same tokens, in every
/// ledger; a freeze flag is kept for live tokens only.
pub proof fn lemma_same_keys(l: Ledger)
    ensures
        l.metadata_by_id().dom() == l.dynamic_by_id().dom(),
        l.metadata_by_id().dom() == l.records.dom(),
        l.metadata_by_id().len() == l.dynamic_by_id().len(),
        l.freeze_by_id().dom().subset_of(l.metadata_by_id().dom()),
{
    assert(l.metadata_by_id().dom() =~= l.records.dom());
    assert(l.dynamic_by_id().dom() =~= l.records.dom());
}

/// The ledger at genesis is consistent.
pub proof fn lemma_genesis(l: Ledger)
    requires
        l.records.dom() == Set::<TokenId>::empty(),
        l.owner_by_id.dom() == Set::<TokenId>::empty(),
        l.tokens_for_owner.dom() == Set::<ActorId>::empty(),
        l.counter == TokenId::from_u128_spec(TOKEN_ID_START),
    ensures
        consistent(l),
{
}

/// A mint keeps the ledger consistent.
pub proof fn lemma_mint_keeps_consistent(l: Ledger, ctx: MessageContext, race: CyborRace)
    requires
        consistent(l),
        mint_step(l, ctx, race) is Ok,
    ensures
        consistent(mint_step(l, ctx, race)->Ok_0.next),
{
    let next = mint_step(l, ctx, race)->Ok_0.next;
    let id = l.counter;
    lemma_successor(l.counter);
    assert(!l.records.contains_key(id)) by {
        if l.records.contains_key(id) {
            assert(id@ < l.counter@);
        }
    }
    assert(next.owner_by_id.dom() =~= next.records.dom());
    assert forall|other: TokenId| #[trigger] next.records.contains_key(other) implies {
        &&& next.tokens_for_owner.contains_key(next.owner_by_id[other])
        &&& next.tokens_for_owner[next.owner_by_id[other]].contains(other)
        &&& other@ < next.counter@
        &&& record_sound(next.records[other])
    } by {
        if other != id {
            assert(l.records.contains_key(other));
        }
    }
}

/// A burn keeps the ledger consistent.
pub proof fn lemma_burn_keeps_consistent(
    l: Ledger,
    ctx: MessageContext,
    id: TokenId,
    callable_balance: u128,
    refund_msg: Option<MessageId>,
)
    requires
        consistent(l),
        burn_step(l, ctx, id, callable_balance, refund_msg) is Ok,
    ensures
        consistent(burn_step(l, ctx, id, callable_balance, refund_msg)->Ok_0.next),
{
    let next = burn_step(l, ctx, id, callable_balance, refund_msg)->Ok_0.next;
    assert(next.owner_by_id.dom() =~= next.records.dom());
    assert forall|other: TokenId| #[trigger] next.records.contains_key(other) implies {
        &&& next.tokens_for_owner.contains_key(next.owner_by_id[other])
        &&& next.tokens_for_owner[next.owner_by_id[other]].contains(other)
        &&& other@ < next.counter@
        &&& record_sound(next.records[other])
    } by {
        assert(l.records.contains_key(other));
    }
}

/// Replacing the dynamic state of one live Cybor by another with a derived
/// grade keeps the ledger consistent.
proof fn lemma_update_keeps_consistent(l: Ledger, next: Ledger, id: TokenId)
    requires
        consistent(l),
        l.records.contains_key(id),
        next == (Ledger { records: l.records.insert(id, next.records[id]), ..l }),
        next.records[id].metadata == l.records[id].metadata,
        grade_derived(next.records[id].dynamic),
    ensures
        consistent(next),
{
    assert(next.records.dom() =~= l.records.dom());
    assert forall|other: TokenId| #[trigger] next.records.contains_key(other) implies {
        &&& next.tokens_for_owner.contains_key(next.owner_by_id[other])
        &&& next.tokens_for_owner[next.owner_by_id[other]].contains(other)
        &&& other@ < next.counter@
        &&& record_sound(next.records[other])
    } by {
        assert(l.records.contains_key(other));
    }
}

/// A freeze keeps the ledger consistent.
pub proof fn lemma_freeze_keeps_consistent(l: Ledger, ctx: MessageContext, id: TokenId)
    requires
        consistent(l),
        freeze_step(l, ctx, id) is Ok,
    ensures
        consistent(freeze_step(l, ctx, id)->Ok_0.next),
{
    let step = freeze_step(l, ctx, id)->Ok_0;
    if step.event is Some {
        lemma_update_keeps_consistent(l, step.next, id);
    }
}

/// An unfreeze keeps the ledger consistent.
pub proof fn lemma_unfreeze_keeps_consistent(l: Ledger, ctx: MessageContext, id: TokenId)
    requires
        consistent(l),
        unfreeze_step(l, ctx, id) is Ok,
    ensures
        consistent(unfreeze_step(l, ctx, id)->Ok_0.next),
{
    let step = unfreeze_step(l, ctx, id)->Ok_0;
    if step.event is Some {
        lemma_update_keeps_consistent(l, step.next, id);
    }
}

/// A level-up keeps the ledger consistent.
pub proof fn lemma_up_level_keeps_consistent(l: Ledger, ctx: MessageContext, id: TokenId)
    requires
        consistent(l),
        up_level_step(l, ctx, id) is Ok,
    ensures
        consistent(up_level_step(l, ctx, id)->Ok_0.next),
{
    let step = up_level_step(l, ctx, id)->Ok_0;
    lemma_update_keeps_consistent(l, step.next, id);
}

/// In a consistent ledger no message finds a token with an owner and without a
/// Cybor, and no refund falls below zero.
pub proof fn lemma_no_missing_record(
    l: Ledger,
    ctx: MessageContext,
    id: TokenId,
    callable_balance: u128,
)
    requires
        consistent(l),
    ensures
        refund_due(l, ctx, id, callable_balance) != Err::<Option<super::events::Refund>, CyborError>(
            CyborError::MissingRecord,
        ),
        refund_due(l, ctx, id, callable_balance) != Err::<Option<super::events::Refund>, CyborError>(
            CyborError::OutOfRange,
        ),
        freeze_step(l, ctx, id) is Ok,
        unfreeze_step(l, ctx, id) != Err::<Step, CyborError>(CyborError::MissingRecord),
        up_level_step(l, ctx, id) != Err::<Step, CyborError>(CyborError::MissingRecord),
{
    if l.owner_by_id.contains_key(id) {
        assert(l.records.contains_key(id));
        lemma_templates(l.records[id].metadata.race);
    }
}

// ---------------------------------------------------------------------------
// Every message
// ---------------------------------------------------------------------------

/// A message that may change the ledger, with what the host adds to it.
pub enum Message {
    Mint { race: CyborRace },
    Burn { token_id: TokenId, callable_balance: u128, refund_msg: Option<MessageId> },
    Freeze { token_id: TokenId },
    Unfreeze { token_id: TokenId },
    UpLevel { token_id: TokenId },
}

/// What a message does.
pub open spec fn step(l: Ledger, ctx: MessageContext, message: Message) -> Result<
    Step,
    CyborError,
> {
    match message {
        Message::Mint { race } => mint_step(l, ctx, race),
        Message::Burn { token_id, callable_balance, refund_msg } => burn_step(
            l,
            ctx,
            token_id,
            callable_balance,
            refund_msg,
        ),
        Message::Freeze { token_id } => freeze_step(l, ctx, token_id),
        Message::Unfreeze { token_id } => unfreeze_step(l, ctx, token_id),
        Message::UpLevel { token_id } => up_level_step(l, ctx, token_id),
    }
}

/// Every message that is accepted leaves a consistent ledger consistent.
pub proof fn lemma_step_keeps_consistent(l: Ledger, ctx: MessageContext, message: Message)
    requires
        consistent(l),
        step(l, ctx, message) is Ok,
    ensures
        consistent(step(l, ctx, message)->Ok_0.next),
{
    match message {
        Message::Mint { race } => lemma_mint_keeps_consistent(l, ctx, race),
        Message::Burn { token_id, callable_balance, refund_msg } => lemma_burn_keeps_consistent(
            l,
            ctx,
            token_id,
            callable_balance,
            refund_msg,
        ),
        Message::Freeze { token_id } => lemma_freeze_keeps_consistent(l, ctx, token_id),
        Message::Unfreeze { token_id } => lemma_unfreeze_keeps_consistent(l, ctx, token_id),
        Message::UpLevel { token_id } => lemma_up_level_keeps_consistent(l, ctx, token_id),
    }
}

/// In a consistent ledger the grade of every live Cybor that has risen a
/// level is the tenth of its level, rounded down; a Cybor that never rose has
/// the level and the grade 1 of its mint.
pub proof fn lemma_grades(l: Ledger, id: TokenId)
    requires
        consistent(l),
        l.dynamic_by_id().contains_key(id),
    ensures
        l.dynamic_by_id()[id].level >= 2 ==> l.dynamic_by_id()[id].grade == l.dynamic_by_id()[id].level
            / 10,
        l.dynamic_by_id()[id].level >= 1,
        l.dynamic_by_id()[id].level == 1 ==> l.dynamic_by_id()[id].grade == 1,
{
    assert(l.records.contains_key(id));
}

/// In a consistent ledger the metadata of every live Cybor carries the
/// template of its race.
pub proof fn lemma_template_snapshot(l: Ledger, id: TokenId)
    requires
        consistent(l),
        l.metadata_by_id().contains_key(id),
    ensures
        l.metadata_by_id()[id].cybor_template == template_of(l.metadata_by_id()[id].race),
{
    assert(l.records.contains_key(id));
}

// ---------------------------------------------------------------------------
// Experience
// ---------------------------------------------------------------------------

/// Over every accepted message the experience banked for a token that lives
/// on does not fall, but in a level-up of that very token, which takes
/// exactly the cost of a level.
pub proof fn lemma_exp_over_a_message(
    l: Ledger,
    ctx: MessageContext,
    message: Message,
    token: TokenId,
)
    requires
        consistent(l),
        step(l, ctx, message) is Ok,
        l.records.contains_key(token),
        step(l, ctx, message)->Ok_0.next.records.contains_key(token),
    ensures
        ({
            let before = l.dynamic_by_id()[token].exp;
            let after = step(l, ctx, message)->Ok_0.next.dynamic_by_id()[token].exp;
            if message == (Message::UpLevel { token_id: token }) {
                after + LEVEL_UP_EXP_COST == before
            } else {
                after >= before
            }
        }),
{
    assert(token@ < l.counter@);
}

// ---------------------------------------------------------------------------
// How the operations relate
// ---------------------------------------------------------------------------

/// A mint followed by a burn of the minted token by the same sender: the
/// burn succeeds and owes no refund, as many Cybors are alive as before the
/// mint, and no table holds anything for the token.
pub proof fn lemma_mint_then_burn(
    l: Ledger,
    mint_ctx: MessageContext,
    race: CyborRace,
    burn_ctx: MessageContext,
    callable_balance: u128,
    refund_msg: Option<MessageId>,
)
    requires
        consistent(l),
        mint_step(l, mint_ctx, race) is Ok,
        burn_ctx.sender == mint_ctx.sender,
    ensures
        ({
            let id = l.counter;
            let minted = mint_step(l, mint_ctx, race)->Ok_0.next;
            let burned = burn_step(minted, burn_ctx, id, callable_balance, refund_msg);
            &&& refund_due(minted, burn_ctx, id, callable_balance) == Ok::<
                Option<super::events::Refund>,
                CyborError,
            >(None)
            &&& burned is Ok
            &&& burned->Ok_0.next.records == l.records
            &&& burned->Ok_0.next.metadata_by_id().len() == l.metadata_by_id().len()
            &&& burned->Ok_0.next.owner_by_id == l.owner_by_id
            &&& !burned->Ok_0.next.metadata_by_id().contains_key(id)
            &&& !burned->Ok_0.next.dynamic_by_id().contains_key(id)
            &&& !burned->Ok_0.next.freeze_by_id().contains_key(id)
            &&& !burned->Ok_0.next.owner_by_id.contains_key(id)
            &&& !burned->Ok_0.next.token_approvals.contains_key(id)
            &&& !held_by(burned->Ok_0.next.tokens_for_owner, mint_ctx.sender).contains(id)
        }),
{
    let id = l.counter;
    let minted = mint_step(l, mint_ctx, race)->Ok_0.next;
    let burned = burn_step(minted, burn_ctx, id, callable_balance, refund_msg);
    assert(!l.records.contains_key(id)) by {
        if l.records.contains_key(id) {
            assert(id@ < l.counter@);
        }
    }
    assert(!l.owner_by_id.contains_key(id));
    assert(burned is Ok);
    assert(burned->Ok_0.next.records =~= l.records);
    assert(burned->Ok_0.next.owner_by_id =~= l.owner_by_id);
    lemma_same_keys(burned->Ok_0.next);
    lemma_same_keys(l);
}

/// A freeze that is accepted, followed at once (in the same block) by an
/// unfreeze from the same sender: the unfreeze is accepted, the experience
/// banked is what it was before the freeze, and no accrual window is open.
pub proof fn lemma_freeze_then_unfreeze(
    l: Ledger,
    freeze_ctx: MessageContext,
    unfreeze_ctx: MessageContext,
    id: TokenId,
)
    requires
        freeze_step(l, freeze_ctx, id) matches Ok(step) && step.event is Some,
        unfreeze_ctx.sender == freeze_ctx.sender,
        unfreeze_ctx.block_height == freeze_ctx.block_height,
    ensures
        ({
            let frozen = freeze_step(l, freeze_ctx, id)->Ok_0.next;
            let thawed = unfreeze_step(frozen, unfreeze_ctx, id);
            &&& thawed matches Ok(step) && step.event is Some
            &&& thawed->Ok_0.next.records[id].dynamic.exp == l.records[id].dynamic.exp
            &&& thawed->Ok_0.next.records[id].dynamic.start_at == 0
        }),
{
}

/// A token minted at one block and asked for at a later one, with no
/// message in between: the experience reported is the number of blocks that
/// have passed.
pub proof fn lemma_fresh_token_exp(
    l: Ledger,
    ctx: MessageContext,
    race: CyborRace,
    later_block: u32,
)
    requires
        mint_step(l, ctx, race) is Ok,
        later_block >= ctx.block_height,
    ensures
        reported(mint_step(l, ctx, race)->Ok_0.next, l.counter, later_block).exp == later_block
            - ctx.block_height,
{
}

// ---------------------------------------------------------------------------
// Boundaries
// ---------------------------------------------------------------------------

/// A mint that nothing else stands against fails where the message carries
/// one less than the price, and succeeds where it carries the price.
pub proof fn lemma_mint_price_boundary(l: Ledger, ctx: MessageContext, race: CyborRace)
    requires
        ctx.sender != ActorId::spec_zero(),
        l.records.len() < MAX_SUPPLY,
        l.counter@ + 1 < word_limit(),
    ensures
        ctx.attached_value == template_of(race).price - 1 ==> mint_step(l, ctx, race) is Err,
        ctx.attached_value == template_of(race).price ==> mint_step(l, ctx, race) is Ok,
        mint_step(l, ctx, race) is Ok <==> ctx.attached_value >= template_of(race).price,
{
}

/// With as many Cybors alive as may be, a mint fails.
pub proof fn lemma_mint_supply_boundary(l: Ledger, ctx: MessageContext, race: CyborRace)
    requires
        l.records.len() >= MAX_SUPPLY,
    ensures
        mint_step(l, ctx, race) is Err,
        ctx.sender != ActorId::spec_zero() ==> mint_step(l, ctx, race) == Err::<Step, CyborError>(
            CyborError::SupplyExhausted,
        ),
{
}

/// A level-up asked by the owner with value enough fails with one less than
/// the cost of a level in experience; with exactly the cost it succeeds and
/// leaves none.
pub proof fn lemma_level_up_boundary(l: Ledger, ctx: MessageContext, id: TokenId)
    requires
        sent_by_owner(l, ctx, id),
        l.records.contains_key(id),
        ctx.attached_value >= LEVEL_UP_VALUE_FLOOR,
        l.records[id].dynamic.level < u16::MAX,
    ensures
        l.records[id].dynamic.exp == LEVEL_UP_EXP_COST - 1 ==> up_level_step(l, ctx, id) == Err::<
            Step,
            CyborError,
        >(CyborError::NotEnoughExp),
        l.records[id].dynamic.exp == LEVEL_UP_EXP_COST ==> up_level_step(l, ctx, id) is Ok
            && up_level_step(l, ctx, id)->Ok_0.next.records[id].dynamic.exp == 0,
{
}

/// A burn by the owner owes no refund at grade 2; at grade 3, with balance
/// enough, it owes the price less the gas reserve.
pub proof fn lemma_refund_boundary(
    l: Ledger,
    ctx: MessageContext,
    id: TokenId,
    callable_balance: u128,
)
    requires
        sent_by_owner(l, ctx, id),
        l.records.contains_key(id),
        record_sound(l.records[id]),
        callable_balance >= l.records[id].metadata.cybor_template.price,
    ensures
        l.records[id].dynamic.grade == 2 ==> refund_due(l, ctx, id, callable_balance) == Ok::<
            Option<super::events::Refund>,
            CyborError,
        >(None),
        l.records[id].dynamic.grade == 3 ==> (refund_due(l, ctx, id, callable_balance) matches Ok(
            Some(refund),
        ) && refund.value == l.records[id].metadata.cybor_template.price - REFUND_GAS_RESERVE
            && refund.to == ctx.sender),
{
    lemma_templates(l.records[id].metadata.race);
}

} // verus!
