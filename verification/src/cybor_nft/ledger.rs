//! The ledger as a mathematical value, and what each message does to it.
//!
//! Every operation of the service is stated here as a function from the
//! ledger before the message to the ledger after it and the event that the
//! message ends in, or to the way in which the message fails.

use vstd::prelude::*;
use super::cybor_template::{template_of, CyborRace};
use super::events::{
    CyborError, CyborEvents, MessageContext, Refund, FINISHING_SKILL_PERIOD, LEVEL_UP_EXP_COST,
    LEVEL_UP_VALUE_FLOOR, MAX_SUPPLY, REFUND_GAS_RESERVE, REFUND_GRADE_THRESHOLD, REFUND_NOTE,
};
use super::record::{CyborDynamic, CyborMetadataView, CyborRecordView};
use super::state::CyborState;
use super::stream::CyborStreamView;
use crate::primitives::{word_limit, ActorId, MessageId, TokenId};
use crate::storage::{held_by, Storage};

verus! {

/// The token store and the ownership store together.
#[verifier::ext_equal]
pub struct Ledger {
    /// The Cybor of each live token.
    pub records: Map<TokenId, CyborRecordView>,
    /// The id that the next mint hands out.
    pub counter: TokenId,
    /// The owner of each token that has one.
    pub owner_by_id: Map<TokenId, ActorId>,
    /// The tokens of each actor that has an entry.
    pub tokens_for_owner: Map<ActorId, Set<TokenId>>,
    /// The actor approved for each token that has one.
    pub token_approvals: Map<TokenId, ActorId>,
}

/// The ledger that a token store and an ownership store make up.
pub open spec fn ledger_of(state: CyborState, storage: Storage) -> Ledger {
    Ledger {
        records: state.records(),
        counter: state.counter(),
        owner_by_id: storage@.owner_by_id,
        tokens_for_owner: storage@.tokens_for_owner,
        token_approvals: storage@.token_approvals,
    }
}

impl Ledger {
    /// The metadata of each live token.
    pub open spec fn metadata_by_id(self) -> Map<TokenId, CyborMetadataView> {
        self.records.map_values(|record: CyborRecordView| record.metadata)
    }

    /// The dynamic state of each live token.
    pub open spec fn dynamic_by_id(self) -> Map<TokenId, CyborDynamic> {
        self.records.map_values(|record: CyborRecordView| record.dynamic)
    }

    /// The freeze flags: a token has one, and it is `true`, where the token is
    /// frozen.
    pub open spec fn freeze_by_id(self) -> Map<TokenId, bool> {
        Map::new(
            |id: TokenId| self.records.contains_key(id) && self.records[id].frozen,
            |id: TokenId| true,
        )
    }

    /// Each table holds finitely many entries.
    pub open spec fn finite(self) -> bool {
        &&& self.records.dom().finite()
        &&& self.owner_by_id.dom().finite()
        &&& self.tokens_for_owner.dom().finite()
    }
}

/// A ledger after a message, and the event that the message ended in, if any.
pub struct Step {
    pub next: Ledger,
    pub event: Option<CyborEvents>,
}

/// A count as an event carries it: cut to 32 bits.
pub open spec fn wrap32(n: nat) -> u32 {
    (n % 0x1_0000_0000) as u32
}

/// The Cybor that a mint of `race` at `block_height` creates.
pub open spec fn minted_record(race: CyborRace, block_height: u32) -> CyborRecordView {
    CyborRecordView {
        metadata: CyborMetadataView {
            race,
            cybor_template: template_of(race),
            is_have_finishing_skill: block_height % FINISHING_SKILL_PERIOD == 0,
            mint_at: block_height,
            image: Seq::empty(),
        },
        dynamic: CyborDynamic { level: 1, grade: 1, lucky: 1, exp: 0, start_at: block_height },
        frozen: true,
    }
}

/// What `mint` does.
pub open spec fn mint_step(l: Ledger, ctx: MessageContext, race: CyborRace) -> Result<
    Step,
    CyborError,
> {
    if ctx.sender == ActorId::spec_zero() {
        Err(CyborError::ZeroAddress)
    } else if l.records.len() >= MAX_SUPPLY {
        Err(CyborError::SupplyExhausted)
    } else if ctx.attached_value < template_of(race).price {
        Err(
            CyborError::IncorrectValue {
                attached: ctx.attached_value,
                price: template_of(race).price,
            },
        )
    } else if l.counter@ + 1 >= word_limit() {
        Err(CyborError::OutOfRange)
    } else {
        let id = l.counter;
        let next = Ledger {
            records: l.records.insert(id, minted_record(race, ctx.block_height)),
            counter: l.counter.successor(),
            owner_by_id: l.owner_by_id.insert(id, ctx.sender),
            tokens_for_owner: l.tokens_for_owner.insert(
                ctx.sender,
                held_by(l.tokens_for_owner, ctx.sender).insert(id),
            ),
            token_approvals: l.token_approvals,
        };
        Ok(
            Step {
                next,
                event: Some(
                    CyborEvents::Minted {
                        to: ctx.sender,
                        value: id,
                        next_id: next.counter,
                        len_by_minted: wrap32(next.owner_by_id.len()),
                        len_by_group_user: wrap32(next.tokens_for_owner.len()),
                    },
                ),
            },
        )
    }
}

/// The refund that a burn of `id` owes: none where the Cybor's grade is not
/// above the threshold, else the price less the gas reserve, to the owner.
/// It fails as the burn itself would.
pub open spec fn refund_due(l: Ledger, ctx: MessageContext, id: TokenId, callable_balance: u128)
    -> Result<Option<Refund>, CyborError> {
    if !l.owner_by_id.contains_key(id) {
        Err(CyborError::NotMinted)
    } else if l.owner_by_id[id] != ctx.sender {
        Err(CyborError::NotOwner)
    } else if !l.records.contains_key(id) {
        Err(CyborError::MissingRecord)
    } else if l.records[id].dynamic.grade > REFUND_GRADE_THRESHOLD {
        let price = l.records[id].metadata.cybor_template.price;
        if price > callable_balance {
            Err(CyborError::InsufficientBalance)
        } else if price < REFUND_GAS_RESERVE {
            Err(CyborError::OutOfRange)
        } else {
            Ok(
                Some(
                    Refund {
                        to: ctx.sender,
                        payload: REFUND_NOTE,
                        gas_limit: REFUND_GAS_RESERVE as u64,
                        value: (price - REFUND_GAS_RESERVE) as u128,
                    },
                ),
            )
        }
    } else {
        Ok(None)
    }
}

/// The ledger without the token `id`, which `from` held.
pub open spec fn without_token(l: Ledger, from: ActorId, id: TokenId) -> Ledger {
    Ledger {
        records: l.records.remove(id),
        counter: l.counter,
        owner_by_id: l.owner_by_id.remove(id),
        tokens_for_owner: if l.tokens_for_owner.contains_key(from) {
            l.tokens_for_owner.insert(from, l.tokens_for_owner[from].remove(id))
        } else {
            l.tokens_for_owner
        },
        token_approvals: l.token_approvals.remove(id),
    }
}

/// What `burn` does. `refund_msg` is the id that the host gave to the refund
/// message, or `None` where the host took none; it counts only where a refund
/// is due.
pub open spec fn burn_step(
    l: Ledger,
    ctx: MessageContext,
    id: TokenId,
    callable_balance: u128,
    refund_msg: Option<MessageId>,
) -> Result<Step, CyborError> {
    match refund_due(l, ctx, id, callable_balance) {
        Err(error) => Err(error),
        Ok(due) => if due is Some && refund_msg is None {
            Err(CyborError::SendFailed)
        } else {
            Ok(
                Step {
                    next: without_token(l, ctx.sender, id),
                    event: Some(
                        CyborEvents::Burned {
                            from: ctx.sender,
                            value: id,
                            msg_id: if due is Some {
                                refund_msg->0
                            } else {
                                MessageId::spec_zero()
                            },
                        },
                    ),
                },
            )
        },
    }
}

/// Whether `ctx.sender` owns the token `id`.
pub open spec fn sent_by_owner(l: Ledger, ctx: MessageContext, id: TokenId) -> bool {
    l.owner_by_id.contains_key(id) && l.owner_by_id[id] == ctx.sender
}

/// The ledger with the Cybor of `id` replaced.
pub open spec fn with_record(l: Ledger, id: TokenId, record: CyborRecordView) -> Ledger {
    Ledger { records: l.records.insert(id, record), ..l }
}

/// What `freeze` does: where the owner asks and no accrual window is running,
/// it opens one at this block and sets the freeze flag; else nothing.
pub open spec fn freeze_step(l: Ledger, ctx: MessageContext, id: TokenId) -> Result<
    Step,
    CyborError,
> {
    if !sent_by_owner(l, ctx, id) {
        Ok(Step { next: l, event: None })
    } else if !l.records.contains_key(id) {
        Err(CyborError::MissingRecord)
    } else if l.records[id].dynamic.start_at != 0 {
        Ok(Step { next: l, event: None })
    } else {
        let record = l.records[id];
        Ok(
            Step {
                next: with_record(
                    l,
                    id,
                    CyborRecordView {
                        dynamic: CyborDynamic { start_at: ctx.block_height, ..record.dynamic },
                        frozen: true,
                        ..record
                    },
                ),
                event: Some(CyborEvents::Freeze { from: ctx.sender, value: id }),
            },
        )
    }
}

/// What `unfreeze` does: where the owner asks, it clears the freeze flag,
/// banks the blocks since the window began and closes the window; else
/// nothing.
pub open spec fn unfreeze_step(l: Ledger, ctx: MessageContext, id: TokenId) -> Result<
    Step,
    CyborError,
> {
    if !sent_by_owner(l, ctx, id) {
        Ok(Step { next: l, event: None })
    } else if !l.records.contains_key(id) {
        Err(CyborError::MissingRecord)
    } else {
        let record = l.records[id];
        let banked = record.dynamic.exp + ctx.block_height - record.dynamic.start_at;
        if ctx.block_height < record.dynamic.start_at || banked > u128::MAX {
            Err(CyborError::OutOfRange)
        } else {
            Ok(
                Step {
                    next: with_record(
                        l,
                        id,
                        CyborRecordView {
                            dynamic: CyborDynamic {
                                exp: banked as u128,
                                start_at: 0,
                                ..record.dynamic
                            },
                            frozen: false,
                            ..record
                        },
                    ),
                    event: Some(CyborEvents::UnFreeze { from: ctx.sender, value: id }),
                },
            )
        }
    }
}

/// What `up_level` does.
pub open spec fn up_level_step(l: Ledger, ctx: MessageContext, id: TokenId) -> Result<
    Step,
    CyborError,
> {
    if !l.owner_by_id.contains_key(id) {
        Err(CyborError::NotMinted)
    } else if l.owner_by_id[id] != ctx.sender {
        Err(CyborError::NotOwner)
    } else if ctx.attached_value < LEVEL_UP_VALUE_FLOOR {
        Err(CyborError::NotEnoughValue)
    } else if !l.records.contains_key(id) {
        Err(CyborError::MissingRecord)
    } else if l.records[id].dynamic.exp < LEVEL_UP_EXP_COST {
        Err(CyborError::NotEnoughExp)
    } else if l.records[id].dynamic.level == u16::MAX {
        Err(CyborError::OutOfRange)
    } else {
        let record = l.records[id];
        let level = (record.dynamic.level + 1) as u16;
        Ok(
            Step {
                next: with_record(
                    l,
                    id,
                    CyborRecordView {
                        dynamic: CyborDynamic {
                            exp: (record.dynamic.exp - LEVEL_UP_EXP_COST) as u128,
                            level,
                            grade: level / 10,
                            ..record.dynamic
                        },
                        ..record
                    },
                ),
                event: Some(CyborEvents::Uplevel { from: ctx.sender, value: id }),
            },
        )
    }
}

/// The experience of a Cybor as a query at `block_height` reports it: what
/// is banked, and the blocks since the accrual window began. Where that
/// leaves the range of the type, the nearest end of the range.
pub open spec fn live_exp(dynamic: CyborDynamic, block_height: u32) -> u128 {
    let exp = dynamic.exp + block_height - dynamic.start_at;
    if exp < 0 {
        0
    } else if exp > u128::MAX {
        u128::MAX
    } else {
        exp as u128
    }
}

/// A Cybor as a query at `block_height` reports it.
pub open spec fn stream_of(record: CyborRecordView, block_height: u32) -> CyborStreamView {
    CyborStreamView {
        race_name: record.metadata.cybor_template.race_name,
        basic_damage: record.metadata.cybor_template.basic_damage,
        basic_hp: record.metadata.cybor_template.basic_hp,
        basic_move_speed: record.metadata.cybor_template.basic_move_speed,
        basic_knockdown_hit: record.metadata.cybor_template.basic_knockdown_hit,
        score_per_block: record.metadata.cybor_template.score_per_block,
        is_have_finishing_skill: record.metadata.is_have_finishing_skill,
        mint_at: record.metadata.mint_at,
        image: record.metadata.image,
        level: record.dynamic.level,
        grade: record.dynamic.grade,
        lucky: record.dynamic.lucky,
        exp: live_exp(record.dynamic, block_height),
        is_freeze: record.frozen,
    }
}

/// What a query at `block_height` reports of the token `id`: its Cybor, or
/// the empty report where the store holds none.
pub open spec fn reported(l: Ledger, id: TokenId, block_height: u32) -> CyborStreamView {
    if l.records.contains_key(id) {
        stream_of(l.records[id], block_height)
    } else {
        CyborStreamView::empty()
    }
}

/// The metadata that a query reports of the token `id`.
pub open spec fn reported_metadata(l: Ledger, id: TokenId) -> CyborMetadataView {
    if l.records.contains_key(id) {
        l.records[id].metadata
    } else {
        CyborMetadataView::empty()
    }
}

} // verus!
