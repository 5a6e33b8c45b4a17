//! The registry of race templates: the price and base statistics that a Cybor
//! of each race is minted with.

use vstd::prelude::*;

verus! {

/// The races a Cybor can belong to.
#[derive(Clone, Copy, Debug, PartialEq, Eq, Structural)]
pub enum CyborRace {
    Rodriguez,
    Nguyen,
}

impl Default for CyborRace {
    fn default() -> (race: CyborRace)
        ensures
            race == CyborRace::Rodriguez,
    {
        CyborRace::Rodriguez
    }
}

/// Price, base combat statistics and score rate of one race.
#[derive(Clone, Copy, Debug, PartialEq, Eq)]
pub struct CyborTemplate {
    pub race_name: &'static str,
    pub price: u128,
    pub basic_damage: u32,
    pub basic_hp: u32,
    pub basic_move_speed: u32,
    pub basic_knockdown_hit: u32,
    pub score_per_block: u32,
}

impl CyborTemplate {
    /// A template without a name and with every number zero.
    pub open spec fn spec_empty() -> CyborTemplate {
        CyborTemplate {
            race_name: "",
            price: 0,
            basic_damage: 0,
            basic_hp: 0,
            basic_move_speed: 0,
            basic_knockdown_hit: 0,
            score_per_block: 0,
        }
    }

    /// The template that stands for "no such race": named `NotFound`, with
    /// every number zero.
    pub open spec fn spec_not_found() -> CyborTemplate {
        CyborTemplate { race_name: "NotFound", ..Self::spec_empty() }
    }

    #[verifier::when_used_as_spec(spec_not_found)]
    pub fn not_found() -> (t: CyborTemplate)
        ensures
            t == Self::spec_not_found(),
    {
        CyborTemplate {
            race_name: "NotFound",
            price: 0,
            basic_damage: 0,
            basic_hp: 0,
            basic_move_speed: 0,
            basic_knockdown_hit: 0,
            score_per_block: 0,
        }
    }

    /// The template of the Rodriguez race.
    pub open spec fn spec_rodriguez() -> CyborTemplate {
        CyborTemplate {
            race_name: "rodriguez",
            price: 100_000_000_000_000,
            basic_damage: 6,
            basic_hp: 600,
            basic_move_speed: 5,
            basic_knockdown_hit: 1,
            score_per_block: 1,
        }
    }

    #[verifier::when_used_as_spec(spec_rodriguez)]
    pub fn rodriguez() -> (t: CyborTemplate)
        ensures
            t == Self::spec_rodriguez(),
    {
        CyborTemplate {
            race_name: "rodriguez",
            price: 100_000_000_000_000,
            basic_damage: 6,
            basic_hp: 600,
            basic_move_speed: 5,
            basic_knockdown_hit: 1,
            score_per_block: 1,
        }
    }

    /// The template of the Nguyen race.
    pub open spec fn spec_nguyen() -> CyborTemplate {
        CyborTemplate {
            race_name: "nguyen",
            price: 120_000_000_000_000,
            basic_damage: 8,
            basic_hp: 500,
            basic_move_speed: 6,
            basic_knockdown_hit: 1,
            score_per_block: 1,
        }
    }

    #[verifier::when_used_as_spec(spec_nguyen)]
    pub fn nguyen() -> (t: CyborTemplate)
        ensures
            t == Self::spec_nguyen(),
    {
        CyborTemplate {
            race_name: "nguyen",
            price: 120_000_000_000_000,
            basic_damage: 8,
            basic_hp: 500,
            basic_move_speed: 6,
            basic_knockdown_hit: 1,
            score_per_block: 1,
        }
    }
}

impl Default for CyborTemplate {
    fn default() -> (t: CyborTemplate)
        ensures
            t == CyborTemplate::spec_empty(),
    {
        CyborTemplate {
            race_name: "",
            price: 0,
            basic_damage: 0,
            basic_hp: 0,
            basic_move_speed: 0,
            basic_knockdown_hit: 0,
            score_per_block: 0,
        }
    }
}

/// The registry: the template of each race.
pub open spec fn template_of(race: CyborRace) -> CyborTemplate {
    match race {
        CyborRace::Rodriguez => CyborTemplate::spec_rodriguez(),
        CyborRace::Nguyen => CyborTemplate::spec_nguyen(),
    }
}

/// The registry's entry for a race. The set of races is closed, so every race
/// has one.
pub fn lookup(race: CyborRace) -> (entry: Option<CyborTemplate>)
    ensures
        entry == Some(template_of(race)),
{
    match race {
        CyborRace::Rodriguez => Some(CyborTemplate::rodriguez()),
        CyborRace::Nguyen => Some(CyborTemplate::nguyen()),
    }
}

/// What a registry entry resolves to: the template itself, or the `NotFound`
/// template where there is none.
pub open spec fn resolved(entry: Option<CyborTemplate>) -> CyborTemplate {
    match entry {
        Some(template) => template,
        None => CyborTemplate::spec_not_found(),
    }
}

/// Resolves a registry entry, falling back on the `NotFound` template.
pub fn resolve(entry: Option<CyborTemplate>) -> (t: CyborTemplate)
    ensures
        t == resolved(entry),
{
    match entry {
        Some(template) => template,
        None => CyborTemplate::not_found(),
    }
}

/// No race's template is the `NotFound` template, and each costs more than
/// the gas reserve that a refund holds back.
pub proof fn lemma_templates(race: CyborRace)
    ensures
        template_of(race) != CyborTemplate::spec_not_found(),
        template_of(race).price >= 2_880_000,
        resolved(Some(template_of(race))) == template_of(race),
{
}

} // verus!
