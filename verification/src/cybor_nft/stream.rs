//! The view of one Cybor that queries hand out: template statistics, mint
//! data and the live dynamic state in one flat value.

use vstd::prelude::*;

verus! {

/// One Cybor as queries report it.
#[derive(Clone, Debug, PartialEq, Eq)]
pub struct CyborStream {
    pub race_name: &'static str,
    pub basic_damage: u32,
    pub basic_hp: u32,
    pub basic_move_speed: u32,
    pub basic_knockdown_hit: u32,
    pub score_per_block: u32,
    pub is_have_finishing_skill: bool,
    pub mint_at: u32,
    pub image: String,
    pub level: u16,
    pub grade: u16,
    pub lucky: u32,
    pub exp: u128,
    pub is_freeze: bool,
}

/// A `CyborStream` as a mathematical value.
pub struct CyborStreamView {
    pub race_name: &'static str,
    pub basic_damage: u32,
    pub basic_hp: u32,
    pub basic_move_speed: u32,
    pub basic_knockdown_hit: u32,
    pub score_per_block: u32,
    pub is_have_finishing_skill: bool,
    pub mint_at: u32,
    pub image: Seq<char>,
    pub level: u16,
    pub grade: u16,
    pub lucky: u32,
    pub exp: u128,
    pub is_freeze: bool,
}

impl View for CyborStream {
    type V = CyborStreamView;

    open spec fn view(&self) -> CyborStreamView {
        CyborStreamView {
            race_name: self.race_name,
            basic_damage: self.basic_damage,
            basic_hp: self.basic_hp,
            basic_move_speed: self.basic_move_speed,
            basic_knockdown_hit: self.basic_knockdown_hit,
            score_per_block: self.score_per_block,
            is_have_finishing_skill: self.is_have_finishing_skill,
            mint_at: self.mint_at,
            image: self.image@,
            level: self.level,
            grade: self.grade,
            lucky: self.lucky,
            exp: self.exp,
            is_freeze: self.is_freeze,
        }
    }
}

impl CyborStreamView {
    /// What queries report for a token of which the store holds nothing:
    /// no name, every number zero, not frozen.
    pub open spec fn empty() -> CyborStreamView {
        CyborStreamView {
            race_name: "",
            basic_damage: 0,
            basic_hp: 0,
            basic_move_speed: 0,
            basic_knockdown_hit: 0,
            score_per_block: 0,
            is_have_finishing_skill: false,
            mint_at: 0,
            image: Seq::empty(),
            level: 0,
            grade: 0,
            lucky: 0,
            exp: 0,
            is_freeze: false,
        }
    }

    /// The system Cybor that heads every caller's own list. It is no token of
    /// the ledger.
    pub open spec fn system() -> CyborStreamView {
        CyborStreamView {
            race_name: "rodriguez",
            basic_damage: 6,
            basic_hp: 600,
            basic_move_speed: 5,
            basic_knockdown_hit: 1,
            score_per_block: 0,
            is_have_finishing_skill: false,
            mint_at: 0,
            image: Seq::empty(),
            level: 1,
            grade: 1,
            lucky: 0,
            exp: 0,
            is_freeze: true,
        }
    }
}

impl CyborStream {
    /// The system Cybor.
    pub fn system() -> (s: CyborStream)
        ensures
            s@ == CyborStreamView::system(),
    {
        CyborStream {
            race_name: "rodriguez",
            basic_damage: 6,
            basic_hp: 600,
            basic_move_speed: 5,
            basic_knockdown_hit: 1,
            score_per_block: 0,
            is_have_finishing_skill: false,
            mint_at: 0,
            image: String::new(),
            level: 1,
            grade: 1,
            lucky: 0,
            exp: 0,
            is_freeze: true,
        }
    }
}

impl Default for CyborStream {
    fn default() -> (s: CyborStream)
        ensures
            s@ == CyborStreamView::empty(),
    {
        CyborStream {
            race_name: "",
            basic_damage: 0,
            basic_hp: 0,
            basic_move_speed: 0,
            basic_knockdown_hit: 0,
            score_per_block: 0,
            is_have_finishing_skill: false,
            mint_at: 0,
            image: String::new(),
            level: 0,
            grade: 0,
            lucky: 0,
            exp: 0,
            is_freeze: false,
        }
    }
}

} // verus!
