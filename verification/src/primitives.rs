//! 256-bit identifiers: token ids, actor addresses and message ids.
//!
//! Each is held as two 128-bit halves. A token id is a number (the ledger
//! counts with it); an actor address and a message id are only compared.

use vstd::prelude::*;

verus! {

/// The weight of the high half of a 256-bit number: 2^128.
pub open spec fn half_weight() -> nat {
    0x1_0000_0000_0000_0000_0000_0000_0000_0000nat
}

/// The first value that no 256-bit number reaches: 2^256.
pub open spec fn word_limit() -> nat {
    half_weight() * half_weight()
}

/// A 256-bit unsigned token identifier.
#[derive(Clone, Copy, Debug, PartialEq, Eq, Structural)]
pub struct TokenId {
    pub hi: u128,
    pub lo: u128,
}

impl View for TokenId {
    type V = nat;

    /// The number that the identifier stands for.
    open spec fn view(&self) -> nat {
        self.hi as nat * half_weight() + self.lo as nat
    }
}

impl TokenId {
    /// The identifier with the given halves.
    pub fn new(hi: u128, lo: u128) -> (t: TokenId)
        ensures
            t.hi == hi,
            t.lo == lo,
    {
        TokenId { hi, lo }
    }

    /// The identifier whose number is `value`.
    pub open spec fn from_u128_spec(value: u128) -> TokenId {
        TokenId { hi: 0, lo: value }
    }

    /// The identifier whose number is `value`.
    #[verifier::when_used_as_spec(from_u128_spec)]
    pub fn from_u128(value: u128) -> (t: TokenId)
        ensures
            t@ == value,
            t == Self::from_u128_spec(value),
    {
        TokenId { hi: 0, lo: value }
    }

    /// The identifier that follows this one. Where this one is the greatest
    /// 256-bit number, there is none, and the result means nothing.
    pub open spec fn successor(self) -> TokenId {
        if self.lo < u128::MAX {
            TokenId { hi: self.hi, lo: (self.lo + 1) as u128 }
        } else {
            TokenId { hi: (self.hi + 1) as u128, lo: 0 }
        }
    }

    /// The identifier that follows this one, or `None` where this is the
    /// greatest 256-bit number.
    pub fn checked_next(&self) -> (next: Option<TokenId>)
        ensures
            self@ + 1 < word_limit() <==> next is Some,
            next matches Some(n) ==> n@ == self@ + 1 && n == self.successor(),
    {
        proof {
            lemma_view_bound(*self);
        }
        if self.lo < u128::MAX {
            Some(TokenId { hi: self.hi, lo: self.lo + 1 })
        } else if self.hi < u128::MAX {
            let n = TokenId { hi: self.hi + 1, lo: 0 };
            assert(n@ == self@ + 1) by (nonlinear_arith)
                requires
                    n.hi == self.hi + 1,
                    n.lo == 0,
                    self.lo == half_weight() - 1,
                    n@ == n.hi as nat * half_weight() + n.lo as nat,
                    self@ == self.hi as nat * half_weight() + self.lo as nat,
            ;
            Some(n)
        } else {
            assert(self@ + 1 == word_limit()) by (nonlinear_arith)
                requires
                    self.hi == half_weight() - 1,
                    self.lo == half_weight() - 1,
                    self@ == self.hi as nat * half_weight() + self.lo as nat,
                    word_limit() == half_weight() * half_weight(),
            ;
            None
        }
    }

    /// Whether this identifier's number is smaller than the other's.
    pub fn is_below(&self, other: &TokenId) -> (below: bool)
        ensures
            below == (self@ < other@),
    {
        proof {
            lemma_view_order(*self, *other);
            lemma_view_order(*other, *self);
        }
        self.hi < other.hi || (self.hi == other.hi && self.lo < other.lo)
    }
}

/// Every identifier's number is below 2^256.
pub proof fn lemma_view_bound(t: TokenId)
    ensures
        t@ < word_limit(),
{
    assert((t.hi as nat) * half_weight() + (t.lo as nat) < half_weight() * half_weight())
        by (nonlinear_arith)
        requires
            t.hi < half_weight(),
            t.lo < half_weight(),
    ;
}

/// The successor's number is one more, where there is a successor.
pub proof fn lemma_successor(t: TokenId)
    requires
        t@ + 1 < word_limit(),
    ensures
        t.successor()@ == t@ + 1,
{
    if t.lo < u128::MAX {
    } else {
        if t.hi == u128::MAX {
            assert(t@ + 1 == word_limit()) by (nonlinear_arith)
                requires
                    t.hi == half_weight() - 1,
                    t.lo == half_weight() - 1,
                    t@ == (t.hi as nat) * half_weight() + (t.lo as nat),
                    word_limit() == half_weight() * half_weight(),
            ;
        }
        let n = t.successor();
        assert(n@ == t@ + 1) by (nonlinear_arith)
            requires
                n.hi == t.hi + 1,
                n.lo == 0,
                t.lo == half_weight() - 1,
                n@ == (n.hi as nat) * half_weight() + (n.lo as nat),
                t@ == (t.hi as nat) * half_weight() + (t.lo as nat),
        ;
    }
}

/// The numbers of two identifiers are ordered as their halves are, the high
/// half first.
pub proof fn lemma_view_order(a: TokenId, b: TokenId)
    ensures
        (a.hi < b.hi || (a.hi == b.hi && a.lo < b.lo)) ==> a@ < b@,
{
    if a.hi < b.hi {
        assert((a.hi as nat) * half_weight() + (a.lo as nat) < (b.hi as nat) * half_weight() + (b.lo as nat))
            by (nonlinear_arith)
            requires
                a.hi < b.hi,
                a.lo < half_weight(),
        ;
    }
}

/// Two identifiers with one number are one identifier.
pub proof fn lemma_view_injective(a: TokenId, b: TokenId)
    ensures
        a@ == b@ <==> a == b,
{
    lemma_view_order(a, b);
    lemma_view_order(b, a);
}

/// A 256-bit actor address.
#[derive(Clone, Copy, Debug, PartialEq, Eq, Structural)]
pub struct ActorId {
    pub hi: u128,
    pub lo: u128,
}

impl ActorId {
    /// The address with the given halves.
    pub fn new(hi: u128, lo: u128) -> (a: ActorId)
        ensures
            a == (ActorId { hi, lo }),
    {
        ActorId { hi, lo }
    }

    /// The zero address, which owns nothing and sends nothing.
    pub open spec fn spec_zero() -> ActorId {
        ActorId { hi: 0, lo: 0 }
    }

    #[verifier::when_used_as_spec(spec_zero)]
    pub fn zero() -> (a: ActorId)
        ensures
            a == Self::spec_zero(),
    {
        ActorId { hi: 0, lo: 0 }
    }

    /// Whether this is the zero address.
    pub fn is_zero(&self) -> (z: bool)
        ensures
            z == (*self == Self::spec_zero()),
    {
        self.hi == 0 && self.lo == 0
    }
}

/// A 256-bit message identifier, as the host gives one to each message sent.
#[derive(Clone, Copy, Debug, PartialEq, Eq, Structural)]
pub struct MessageId {
    pub hi: u128,
    pub lo: u128,
}

impl MessageId {
    /// The identifier with the given halves.
    pub fn new(hi: u128, lo: u128) -> (m: MessageId)
        ensures
            m == (MessageId { hi, lo }),
    {
        MessageId { hi, lo }
    }

    /// The zero identifier, which stands for "no message".
    pub open spec fn spec_zero() -> MessageId {
        MessageId { hi: 0, lo: 0 }
    }

    #[verifier::when_used_as_spec(spec_zero)]
    pub fn zero() -> (m: MessageId)
        ensures
            m == Self::spec_zero(),
    {
        MessageId { hi: 0, lo: 0 }
    }
}

} // verus!
