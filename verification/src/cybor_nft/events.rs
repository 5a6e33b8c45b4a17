//! What goes into and comes out of the ledger's operations: the host's
//! context of a message, the events a message ends in, the refund a burn may
//! owe, and the ways a message can fail.

use vstd::prelude::*;
use super::cybor_template::CyborTemplate;
use crate::primitives::{ActorId, MessageId, TokenId};

verus! {

/// The greatest number of Cybors that may be alive at once.
pub const MAX_SUPPLY: u32 = 100_000;

/// The id of the first Cybor ever minted.
pub const TOKEN_ID_START: u128 = 100;

/// The experience that one level costs.
pub const LEVEL_UP_EXP_COST: u128 = 864_000;

/// The least value that a level-up message must carry.
pub const LEVEL_UP_VALUE_FLOOR: u128 = 101_000_000_000_000;

/// The gas set aside for a refund message, and the amount by which the
/// refund falls short of the price.
pub const REFUND_GAS_RESERVE: u128 = 2_880_000;

/// A burn owes a refund where the Cybor's grade is above this.
pub const REFUND_GRADE_THRESHOLD: u16 = 2;

/// A Cybor minted at a block height that this divides has the finishing skill.
pub const FINISHING_SKILL_PERIOD: u32 = 100;

/// The text that a refund message carries.
pub const REFUND_NOTE: &'static str = "CONGRATS! Please claim the refund in 24 hours!";

/// What the host knows of the message being handled.
#[derive(Clone, Copy, Debug, PartialEq, Eq)]
pub struct MessageContext {
    /// The actor that sent the message.
    pub sender: ActorId,
    /// The value that came with the message.
    pub attached_value: u128,
    /// The height of the block in which the message is handled.
    pub block_height: u32,
}

/// A value-carrying message that a burn asks the host to send.
#[derive(Clone, Copy, Debug, PartialEq, Eq)]
pub struct Refund {
    pub to: ActorId,
    pub payload: &'static str,
    pub gas_limit: u64,
    pub value: u128,
}

/// The way in which a message failed. A failed message changes nothing.
#[derive(Clone, Copy, Debug, PartialEq, Eq)]
pub enum CyborError {
    /// The sender is the zero address.
    ZeroAddress,
    /// As many Cybors are alive as may be.
    SupplyExhausted,
    /// The message carries less than the race's price.
    IncorrectValue { attached: u128, price: u128 },
    /// Nobody owns the token.
    NotMinted,
    /// The sender does not own the token.
    NotOwner,
    /// The program cannot pay the refund that the burn owes.
    InsufficientBalance,
    /// The host did not take the refund message.
    SendFailed,
    /// The message carries less than a level-up costs.
    NotEnoughValue,
    /// The Cybor has less experience than a level costs.
    NotEnoughExp,
    /// The token has an owner, but the store holds no Cybor for it.
    MissingRecord,
    /// A counter, a level or an amount would leave the range of its type.
    OutOfRange,
}

/// The kinds that failures fall into.
#[derive(Clone, Copy, Debug, PartialEq, Eq, Structural)]
pub enum ErrorKind {
    Authorization,
    Precondition,
    HostIo,
    InvariantViolation,
}

impl CyborError {
    pub open spec fn spec_kind(self) -> ErrorKind {
        match self {
            CyborError::ZeroAddress | CyborError::NotOwner => ErrorKind::Authorization,
            CyborError::SendFailed => ErrorKind::HostIo,
            CyborError::MissingRecord => ErrorKind::InvariantViolation,
            _ => ErrorKind::Precondition,
        }
    }

    /// The kind of this failure.
    #[verifier::when_used_as_spec(spec_kind)]
    pub fn kind(self) -> (kind: ErrorKind)
        ensures
            kind == self.spec_kind(),
    {
        match self {
            CyborError::ZeroAddress | CyborError::NotOwner => ErrorKind::Authorization,
            CyborError::SendFailed => ErrorKind::HostIo,
            CyborError::MissingRecord => ErrorKind::InvariantViolation,
            _ => ErrorKind::Precondition,
        }
    }
}

/// A snapshot of the ledger as one caller sees it.
#[derive(Clone, Debug, PartialEq, Eq)]
pub struct DebugInfo {
    pub source: ActorId,
    pub value: u128,
    pub temp: CyborTemplate,
    pub minted_count: u128,
    pub owner_by_id: Vec<(TokenId, ActorId)>,
    pub token_group_by_owner_len: u128,
    pub my_tokens1: Vec<TokenId>,
    pub my_tokens2: Vec<TokenId>,
    pub next_token_id: TokenId,
}

/// A `DebugInfo` as a mathematical value.
pub struct DebugInfoView {
    pub source: ActorId,
    pub value: u128,
    pub temp: CyborTemplate,
    pub minted_count: u128,
    pub owner_by_id: Seq<(TokenId, ActorId)>,
    pub token_group_by_owner_len: u128,
    pub my_tokens1: Seq<TokenId>,
    pub my_tokens2: Seq<TokenId>,
    pub next_token_id: TokenId,
}

impl View for DebugInfo {
    type V = DebugInfoView;

    open spec fn view(&self) -> DebugInfoView {
        DebugInfoView {
            source: self.source,
            value: self.value,
            temp: self.temp,
            minted_count: self.minted_count,
            owner_by_id: self.owner_by_id@,
            token_group_by_owner_len: self.token_group_by_owner_len,
            my_tokens1: self.my_tokens1@,
            my_tokens2: self.my_tokens2@,
            next_token_id: self.next_token_id,
        }
    }
}

/// The events that the ledger publishes, one for each message that changed it.
#[derive(Clone, Debug, PartialEq, Eq)]
#[allow(inconsistent_fields)]
pub enum CyborEvents {
    Minted { to: ActorId, value: TokenId, next_id: TokenId, len_by_minted: u32, len_by_group_user: u32 },
    Burned { from: ActorId, value: TokenId, msg_id: MessageId },
    Freeze { from: ActorId, value: TokenId },
    UnFreeze { from: ActorId, value: TokenId },
    Uplevel { from: ActorId, value: TokenId },
    DEBUG { value: DebugInfo },
}

} // verus!
