//! The Cybor service: the operations that messages ask for.
//!
//! The host's part of a message (who sent it, what value came with it, the
//! block height, the answer to a refund message) comes in as plain values;
//! the event that the message ends in goes out as one. Publishing the event
//! and sending the refund are the caller's part.

use vstd::prelude::*;
use super::cybor_template::{lookup, resolve, template_of, CyborRace, CyborTemplate};
use super::events::{
    CyborError, CyborEvents, DebugInfo, MessageContext, Refund, FINISHING_SKILL_PERIOD,
    LEVEL_UP_EXP_COST, LEVEL_UP_VALUE_FLOOR, MAX_SUPPLY, REFUND_GAS_RESERVE,
    REFUND_GRADE_THRESHOLD, REFUND_NOTE,
};
use super::laws::{
    consistent, lemma_burn_keeps_consistent, lemma_freeze_keeps_consistent,
    lemma_mint_keeps_consistent, lemma_unfreeze_keeps_consistent, lemma_up_level_keeps_consistent,
};
use super::ledger::{
    burn_step, freeze_step, ledger_of, live_exp, mint_step, minted_record, refund_due, reported,
    reported_metadata, stream_of, unfreeze_step, up_level_step, wrap32, Ledger,
};
use super::listing::{lists, tokens_in};
use super::record::{CyborDynamic, CyborMetadata, CyborRecord};
use super::state::CyborState;
use super::stream::{CyborStream, CyborStreamView};
use crate::primitives::{ActorId, MessageId, TokenId};
use crate::storage::{held_by, Storage};

verus! {

/// The Cybor service over its token store and the ownership store.
pub struct CyborNFTService {
    vnft: Storage,
    state: CyborState,
}

impl View for CyborNFTService {
    type V = Ledger;

    closed spec fn view(&self) -> Ledger {
        ledger_of(self.state, self.vnft)
    }
}

/// A count cut to 32 bits.
fn cut_to_u32(n: usize) -> (cut: u32)
    ensures
        cut == wrap32(n as nat),
{
    let wide: u64 = n as u64;
    (wide % 0x1_0000_0000u64) as u32
}

/// The experience that a query at `block_height` reports.
fn live_experience(dynamic: &CyborDynamic, block_height: u32) -> (exp: u128)
    ensures
        exp == live_exp(*dynamic, block_height),
{
    if block_height >= dynamic.start_at {
        let gained: u128 = (block_height - dynamic.start_at) as u128;
        match dynamic.exp.checked_add(gained) {
            Some(exp) => exp,
            None => u128::MAX,
        }
    } else {
        let missing: u128 = (dynamic.start_at - block_height) as u128;
        if dynamic.exp >= missing {
            dynamic.exp - missing
        } else {
            0
        }
    }
}

/// The report of one Cybor.
fn report(record: &CyborRecord, block_height: u32) -> (stream: CyborStream)
    ensures
        stream@ == stream_of(record@, block_height),
{
    CyborStream {
        race_name: record.metadata.cybor_template.race_name,
        basic_damage: record.metadata.cybor_template.basic_damage,
        basic_hp: record.metadata.cybor_template.basic_hp,
        basic_move_speed: record.metadata.cybor_template.basic_move_speed,
        basic_knockdown_hit: record.metadata.cybor_template.basic_knockdown_hit,
        score_per_block: record.metadata.cybor_template.score_per_block,
        is_have_finishing_skill: record.metadata.is_have_finishing_skill,
        mint_at: record.metadata.mint_at,
        image: record.metadata.image.clone(),
        level: record.dynamic.level,
        grade: record.dynamic.grade,
        lucky: record.dynamic.lucky,
        exp: live_experience(&record.dynamic, block_height),
        is_freeze: record.frozen,
    }
}

impl CyborNFTService {
    /// The service over the given stores.
    pub fn init(state: CyborState, vnft: Storage) -> (service: CyborNFTService)
        ensures
            service@ == ledger_of(state, vnft),
    {
        CyborNFTService { vnft, state }
    }

    /// Hands the stores back.
    pub fn into_parts(self) -> (parts: (CyborState, Storage))
        ensures
            ledger_of(parts.0, parts.1) == self@,
    {
        (self.state, self.vnft)
    }

    /// The token store.
    pub fn state(&self) -> (state: &CyborState)
        ensures
            state.records() == self@.records,
            state.counter() == self@.counter,
    {
        &self.state
    }

    /// The ownership store.
    pub fn storage(&self) -> (storage: &Storage)
        ensures
            storage@.owner_by_id == self@.owner_by_id,
            storage@.tokens_for_owner == self@.tokens_for_owner,
            storage@.token_approvals == self@.token_approvals,
    {
        &self.vnft
    }

    /// The greatest number of Cybors that may be alive at once.
    pub fn max_supply(&self) -> (n: u32)
        ensures
            n == MAX_SUPPLY,
    {
        MAX_SUPPLY
    }

    /// The template of a race.
    pub fn get_template(&self, race: CyborRace) -> (template: CyborTemplate)
        ensures
            template == template_of(race),
    {
        resolve(lookup(race))
    }

    /// Mints a Cybor of `race` for the sender.
    ///
    /// It fails where the sender is the zero address, where as many Cybors
    /// are alive as may be, where the message carries less than the race's
    /// price, and where the id counter has reached the end of its range.
    pub fn mint(&mut self, ctx: &MessageContext, race: CyborRace) -> (result: Result<
        CyborEvents,
        CyborError,
    >)
        ensures
            consistent(old(self)@) ==> consistent(final(self)@),
            match (mint_step(old(self)@, *ctx, race), result) {
                (Ok(step), Ok(event)) => final(self)@ == step.next && step.event == Some(event),
                (Err(expected), Err(error)) => error == expected && final(self)@ == old(self)@,
                _ => false,
            },
    {
        let to = ctx.sender;
        if to.is_zero() {
            return Err(CyborError::ZeroAddress);
        }
        let alive = self.state.len();
        if alive >= MAX_SUPPLY as usize {
            return Err(CyborError::SupplyExhausted);
        }
        let template = resolve(lookup(race));
        if ctx.attached_value < template.price {
            return Err(
                CyborError::IncorrectValue { attached: ctx.attached_value, price: template.price },
            );
        }
        let id = self.state.next_token_id();
        let next_id = match id.checked_next() {
            Some(next_id) => next_id,
            None => {
                return Err(CyborError::OutOfRange);
            },
        };
        let block_height = ctx.block_height;
        let record = CyborRecord {
            metadata: CyborMetadata {
                race,
                cybor_template: template,
                is_have_finishing_skill: block_height % FINISHING_SKILL_PERIOD == 0,
                mint_at: block_height,
                image: String::new(),
            },
            dynamic: CyborDynamic { level: 1, grade: 1, lucky: 1, exp: 0, start_at: block_height },
            frozen: true,
        };
        assert(record@ == minted_record(race, block_height));
        self.state.insert(id, record);
        self.vnft.add_token(to, id);
        self.vnft.set_owner(id, to);
        self.state.set_counter(next_id);
        proof {
            if consistent(old(self)@) {
                lemma_mint_keeps_consistent(old(self)@, *ctx, race);
            }
        }
        let len_by_minted = cut_to_u32(self.vnft.owner_count());
        let len_by_group_user = cut_to_u32(self.vnft.holder_count());
        Ok(CyborEvents::Minted { to, value: id, next_id, len_by_minted, len_by_group_user })
    }

    /// The refund that a burn of `token_id` by the sender owes, given the
    /// balance that the program can send from. The caller sends it before it
    /// calls `burn`.
    pub fn refund_due(&self, ctx: &MessageContext, token_id: TokenId, callable_balance: u128) -> (due:
        Result<Option<Refund>, CyborError>)
        ensures
            due == refund_due(self@, *ctx, token_id, callable_balance),
    {
        let owner = match self.vnft.owner_of(token_id) {
            Some(owner) => owner,
            None => {
                return Err(CyborError::NotMinted);
            },
        };
        if owner != ctx.sender {
            return Err(CyborError::NotOwner);
        }
        let record = match self.state.get(token_id) {
            Some(record) => record,
            None => {
                return Err(CyborError::MissingRecord);
            },
        };
        if record.dynamic.grade > REFUND_GRADE_THRESHOLD {
            let price = record.metadata.cybor_template.price;
            if price > callable_balance {
                return Err(CyborError::InsufficientBalance);
            }
            if price < REFUND_GAS_RESERVE {
                return Err(CyborError::OutOfRange);
            }
            Ok(
                Some(
                    Refund {
                        to: owner,
                        payload: REFUND_NOTE,
                        gas_limit: REFUND_GAS_RESERVE as u64,
                        value: price - REFUND_GAS_RESERVE,
                    },
                ),
            )
        } else {
            Ok(None)
        }
    }

    /// Burns the sender's token `token_id`.
    ///
    /// `refund_msg` is the id that the host gave to the refund message, or
    /// `None` where the host took none; it counts only where a refund is due.
    /// The burn fails where nobody owns the token, where the sender does not,
    /// where a refund is due that the program cannot pay, and where the host
    /// did not take the refund message.
    pub fn burn(
        &mut self,
        ctx: &MessageContext,
        token_id: TokenId,
        callable_balance: u128,
        refund_msg: Option<MessageId>,
    ) -> (result: Result<CyborEvents, CyborError>)
        ensures
            consistent(old(self)@) ==> consistent(final(self)@),
            match (burn_step(old(self)@, *ctx, token_id, callable_balance, refund_msg), result) {
                (Ok(step), Ok(event)) => final(self)@ == step.next && step.event == Some(event),
                (Err(expected), Err(error)) => error == expected && final(self)@ == old(self)@,
                _ => false,
            },
    {
        let due = match self.refund_due(ctx, token_id, callable_balance) {
            Ok(due) => due,
            Err(error) => {
                return Err(error);
            },
        };
        let msg_id = match due {
            Some(_) => match refund_msg {
                Some(msg_id) => msg_id,
                None => {
                    return Err(CyborError::SendFailed);
                },
            },
            None => MessageId::zero(),
        };
        let from = ctx.sender;
        let _ = self.state.remove(token_id);
        self.vnft.remove_token(from, token_id);
        self.vnft.remove_owner(token_id);
        self.vnft.clear_approval(token_id);
        proof {
            if consistent(old(self)@) {
                lemma_burn_keeps_consistent(
                    old(self)@,
                    *ctx,
                    token_id,
                    callable_balance,
                    refund_msg,
                );
            }
        }
        Ok(CyborEvents::Burned { from, value: token_id, msg_id })
    }

    /// Opens an accrual window for the sender's token `token_id` and sets its
    /// freeze flag. Where the sender does not own the token, or a window is
    /// running already, nothing happens and there is no event.
    pub fn freeze(&mut self, ctx: &MessageContext, token_id: TokenId) -> (result: Result<
        Option<CyborEvents>,
        CyborError,
    >)
        ensures
            consistent(old(self)@) ==> consistent(final(self)@),
            match (freeze_step(old(self)@, *ctx, token_id), result) {
                (Ok(step), Ok(event)) => final(self)@ == step.next && step.event == event,
                (Err(expected), Err(error)) => error == expected && final(self)@ == old(self)@,
                _ => false,
            },
    {
        match self.vnft.owner_of(token_id) {
            Some(owner) => {
                if owner != ctx.sender {
                    return Ok(None);
                }
            },
            None => {
                return Ok(None);
            },
        }
        match self.state.get(token_id) {
            Some(record) => {
                if record.dynamic.start_at != 0 {
                    return Ok(None);
                }
            },
            None => {
                return Err(CyborError::MissingRecord);
            },
        }
        match self.state.remove(token_id) {
            Some(record) => {
                let mut record = record;
                record.dynamic.start_at = ctx.block_height;
                record.frozen = true;
                self.state.insert(token_id, record);
            },
            None => {
                assert(false);
            },
        }
        assert(self@ =~= freeze_step(old(self)@, *ctx, token_id)->Ok_0.next);
        proof {
            if consistent(old(self)@) {
                lemma_freeze_keeps_consistent(old(self)@, *ctx, token_id);
            }
        }
        Ok(Some(CyborEvents::Freeze { from: ctx.sender, value: token_id }))
    }

    /// Clears the freeze flag of the sender's token `token_id`, banks the
    /// blocks since its accrual window began, and closes the window. Where
    /// the sender does not own the token, nothing happens and there is no
    /// event.
    pub fn unfreeze(&mut self, ctx: &MessageContext, token_id: TokenId) -> (result: Result<
        Option<CyborEvents>,
        CyborError,
    >)
        ensures
            consistent(old(self)@) ==> consistent(final(self)@),
            match (unfreeze_step(old(self)@, *ctx, token_id), result) {
                (Ok(step), Ok(event)) => final(self)@ == step.next && step.event == event,
                (Err(expected), Err(error)) => error == expected && final(self)@ == old(self)@,
                _ => false,
            },
    {
        match self.vnft.owner_of(token_id) {
            Some(owner) => {
                if owner != ctx.sender {
                    return Ok(None);
                }
            },
            None => {
                return Ok(None);
            },
        }
        let banked = match self.state.get(token_id) {
            Some(record) => {
                if ctx.block_height < record.dynamic.start_at {
                    return Err(CyborError::OutOfRange);
                }
                let gained: u128 = (ctx.block_height - record.dynamic.start_at) as u128;
                match record.dynamic.exp.checked_add(gained) {
                    Some(banked) => banked,
                    None => {
                        return Err(CyborError::OutOfRange);
                    },
                }
            },
            None => {
                return Err(CyborError::MissingRecord);
            },
        };
        match self.state.remove(token_id) {
            Some(record) => {
                let mut record = record;
                record.frozen = false;
                record.dynamic.exp = banked;
                record.dynamic.start_at = 0;
                self.state.insert(token_id, record);
            },
            None => {
                assert(false);
            },
        }
        assert(self@ =~= unfreeze_step(old(self)@, *ctx, token_id)->Ok_0.next);
        proof {
            if consistent(old(self)@) {
                lemma_unfreeze_keeps_consistent(old(self)@, *ctx, token_id);
            }
        }
        Ok(Some(CyborEvents::UnFreeze { from: ctx.sender, value: token_id }))
    }

    /// Raises the level of the sender's token `token_id` by one, for the
    /// experience that a level costs, and derives the grade from the new
    /// level.
    ///
    /// It fails where nobody owns the token, where the sender does not, where
    /// the message carries less than a level-up costs, where the Cybor has
    /// less experience than a level costs, and where the level is the
    /// greatest there is.
    pub fn up_level(&mut self, ctx: &MessageContext, token_id: TokenId) -> (result: Result<
        CyborEvents,
        CyborError,
    >)
        ensures
            consistent(old(self)@) ==> consistent(final(self)@),
            match (up_level_step(old(self)@, *ctx, token_id), result) {
                (Ok(step), Ok(event)) => final(self)@ == step.next && step.event == Some(event),
                (Err(expected), Err(error)) => error == expected && final(self)@ == old(self)@,
                _ => false,
            },
    {
        match self.vnft.owner_of(token_id) {
            Some(owner) => {
                if owner != ctx.sender {
                    return Err(CyborError::NotOwner);
                }
            },
            None => {
                return Err(CyborError::NotMinted);
            },
        }
        if ctx.attached_value < LEVEL_UP_VALUE_FLOOR {
            return Err(CyborError::NotEnoughValue);
        }
        match self.state.get(token_id) {
            Some(record) => {
                if record.dynamic.exp < LEVEL_UP_EXP_COST {
                    return Err(CyborError::NotEnoughExp);
                }
                if record.dynamic.level == u16::MAX {
                    return Err(CyborError::OutOfRange);
                }
            },
            None => {
                return Err(CyborError::MissingRecord);
            },
        }
        match self.state.remove(token_id) {
            Some(record) => {
                let mut record = record;
                record.dynamic.exp = record.dynamic.exp - LEVEL_UP_EXP_COST;
                record.dynamic.level = record.dynamic.level + 1;
                record.dynamic.grade = record.dynamic.level / 10;
                self.state.insert(token_id, record);
            },
            None => {
                assert(false);
            },
        }
        assert(self@ =~= up_level_step(old(self)@, *ctx, token_id)->Ok_0.next);
        proof {
            if consistent(old(self)@) {
                lemma_up_level_keeps_consistent(old(self)@, *ctx, token_id);
            }
        }
        Ok(CyborEvents::Uplevel { from: ctx.sender, value: token_id })
    }

    /// The metadata of a token; the empty metadata where the token is not
    /// alive.
    pub fn cybor_metadata(&self, token_id: TokenId) -> (metadata: CyborMetadata)
        ensures
            metadata@ == reported_metadata(self@, token_id),
    {
        match self.state.get(token_id) {
            Some(record) => record.metadata.clone(),
            None => CyborMetadata::default(),
        }
    }

    /// Every live token with its metadata, newest first.
    pub fn all_cybors(&self) -> (list: Vec<(TokenId, CyborMetadata)>)
        ensures
            lists(tokens_in(list@), self@.records.dom()),
            forall|i: int|
                0 <= i < list@.len() ==> (#[trigger] list@[i]).1@ == self@.records[list@[i].0].metadata,
    {
        let ids = self.state.token_ids();
        let mut list: Vec<(TokenId, CyborMetadata)> = Vec::new();
        let mut i: usize = 0;
        while i < ids.len()
            invariant
                i <= ids.len(),
                lists(ids@, self@.records.dom()),
                self@.records == self.state.records(),
                list@.len() == i,
                forall|k: int| 0 <= k < i ==> (#[trigger] list@[k]).0 == ids@[k],
                forall|k: int|
                    0 <= k < i ==> (#[trigger] list@[k]).1@ == self@.records[list@[k].0].metadata,
            decreases ids.len() - i,
        {
            let id = ids[i];
            assert(ids@.to_set().contains(id)) by {
                assert(ids@.contains(ids@[i as int]));
            }
            match self.state.get(id) {
                Some(record) => {
                    list.push((id, record.metadata.clone()));
                },
                None => {
                    assert(false);
                },
            }
            i = i + 1;
        }
        assert(tokens_in(list@) =~= ids@);
        list
    }

    /// What a query at this block reports of a token: its Cybor with the
    /// experience it has by now, or the empty report where the token is not
    /// alive.
    pub fn cybor_info(&self, ctx: &MessageContext, token_id: TokenId) -> (resp: CyborStream)
        ensures
            resp@ == reported(self@, token_id, ctx.block_height),
    {
        match self.state.get(token_id) {
            Some(record) => report(record, ctx.block_height),
            None => CyborStream::default(),
        }
    }

    /// The sender's list: the system Cybor under the id 1 first, then the
    /// sender's tokens, newest first, each with its report.
    pub fn all_my_cybors(&self, ctx: &MessageContext) -> (list: Vec<(TokenId, CyborStream)>)
        ensures
            list@.len() >= 1,
            list@[0].0 == TokenId::from_u128_spec(1),
            list@[0].1@ == CyborStreamView::system(),
            lists(tokens_in(list@).drop_first(), held_by(self@.tokens_for_owner, ctx.sender)),
            forall|i: int|
                1 <= i < list@.len() ==> (#[trigger] list@[i]).1@ == reported(
                    self@,
                    list@[i].0,
                    ctx.block_height,
                ),
    {
        let mut list: Vec<(TokenId, CyborStream)> = Vec::new();
        list.push((TokenId::from_u128(1), CyborStream::system()));
        let ids = self.my_tokens(ctx);
        let mut i: usize = 0;
        while i < ids.len()
            invariant
                i <= ids.len(),
                list@.len() == i + 1,
                list@[0].0 == TokenId::from_u128_spec(1),
                list@[0].1@ == CyborStreamView::system(),
                forall|k: int| 0 <= k < i ==> (#[trigger] list@[k + 1]).0 == ids@[k],
                forall|k: int|
                    1 <= k < i + 1 ==> (#[trigger] list@[k]).1@ == reported(
                        self@,
                        list@[k].0,
                        ctx.block_height,
                    ),
            decreases ids.len() - i,
        {
            let id = ids[i];
            let resp = self.cybor_info(ctx, id);
            list.push((id, resp));
            i = i + 1;
        }
        assert(tokens_in(list@).drop_first() =~= ids@) by {
            assert forall|k: int| 0 <= k < ids@.len() implies tokens_in(list@).drop_first()[k]
                == ids@[k] by {
                assert(list@[k + 1].0 == ids@[k]);
            }
        }
        list
    }

    /// The sender's tokens, newest first; none where the sender has no entry.
    fn my_tokens(&self, ctx: &MessageContext) -> (ids: Vec<TokenId>)
        ensures
            lists(ids@, held_by(self@.tokens_for_owner, ctx.sender)),
    {
        match self.vnft.tokens_of(ctx.sender) {
            Some(ids) => ids,
            None => {
                let ids: Vec<TokenId> = Vec::new();
                assert(ids@.to_set() =~= Set::<TokenId>::empty());
                ids
            },
        }
    }

    /// A snapshot of the ledger as the sender sees it: the sender and the
    /// value of the message, the template of `race`, the owner of every
    /// token, newest first, the sender's own tokens, newest first, and the
    /// next token id.
    pub fn debug_info(&self, ctx: &MessageContext, race: CyborRace) -> (info: DebugInfo)
        ensures
            info@.source == ctx.sender,
            info@.value == ctx.attached_value,
            info@.temp == template_of(race),
            info@.minted_count == self@.owner_by_id.len(),
            lists(tokens_in(info@.owner_by_id), self@.owner_by_id.dom()),
            forall|i: int|
                0 <= i < info@.owner_by_id.len() ==> (#[trigger] info@.owner_by_id[i]).1
                    == self@.owner_by_id[info@.owner_by_id[i].0],
            info@.token_group_by_owner_len == self@.tokens_for_owner.len(),
            lists(info@.my_tokens1, held_by(self@.tokens_for_owner, ctx.sender)),
            info@.my_tokens2 == info@.my_tokens1,
            info@.next_token_id == self@.counter,
    {
        let owner_by_id = self.vnft.owners();
        let minted_count = self.vnft.owner_count();
        let holder_count = self.vnft.holder_count();
        let my_tokens1 = self.my_tokens(ctx);
        let my_tokens2 = self.my_tokens(ctx);
        proof {
            super::listing::lemma_listing_unique(
                my_tokens1@,
                my_tokens2@,
                held_by(self@.tokens_for_owner, ctx.sender),
            );
        }
        DebugInfo {
            source: ctx.sender,
            value: ctx.attached_value,
            temp: resolve(lookup(race)),
            minted_count: minted_count as u128,
            owner_by_id,
            token_group_by_owner_len: holder_count as u128,
            my_tokens1,
            my_tokens2,
            next_token_id: self.state.next_token_id(),
        }
    }
}

} // verus!
