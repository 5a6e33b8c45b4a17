//! What the token store keeps for each Cybor: the metadata fixed at mint and
//! the state that changes over the token's life.

use vstd::prelude::*;
use super::cybor_template::{CyborRace, CyborTemplate};

verus! {

/// The part of a Cybor that never changes after mint.
#[derive(Debug, PartialEq, Eq)]
pub struct CyborMetadata {
    pub race: CyborRace,
    pub cybor_template: CyborTemplate,
    pub is_have_finishing_skill: bool,
    pub mint_at: u32,
    pub image: String,
}

/// A `CyborMetadata` as a mathematical value.
pub struct CyborMetadataView {
    pub race: CyborRace,
    pub cybor_template: CyborTemplate,
    pub is_have_finishing_skill: bool,
    pub mint_at: u32,
    pub image: Seq<char>,
}

impl View for CyborMetadata {
    type V = CyborMetadataView;

    open spec fn view(&self) -> CyborMetadataView {
        CyborMetadataView {
            race: self.race,
            cybor_template: self.cybor_template,
            is_have_finishing_skill: self.is_have_finishing_skill,
            mint_at: self.mint_at,
            image: self.image@,
        }
    }
}

impl CyborMetadataView {
    /// The metadata that queries report for a token that does not exist.
    pub open spec fn empty() -> CyborMetadataView {
        CyborMetadataView {
            race: CyborRace::Rodriguez,
            cybor_template: CyborTemplate::spec_empty(),
            is_have_finishing_skill: false,
            mint_at: 0,
            image: Seq::empty(),
        }
    }
}

impl Clone for CyborMetadata {
    fn clone(&self) -> (copy: CyborMetadata)
        ensures
            copy == *self,
    {
        CyborMetadata {
            race: self.race,
            cybor_template: self.cybor_template,
            is_have_finishing_skill: self.is_have_finishing_skill,
            mint_at: self.mint_at,
            image: self.image.clone(),
        }
    }
}

impl Default for CyborMetadata {
    fn default() -> (m: CyborMetadata)
        ensures
            m@ == CyborMetadataView::empty(),
    {
        CyborMetadata {
            race: CyborRace::default(),
            cybor_template: CyborTemplate::default(),
            is_have_finishing_skill: false,
            mint_at: 0,
            image: String::new(),
        }
    }
}

/// The part of a Cybor that changes: level, grade, luck, experience banked so
/// far, and the block at which the running accrual window began (0 where
/// none is running).
#[derive(Clone, Copy, Debug, PartialEq, Eq, Structural)]
pub struct CyborDynamic {
    pub level: u16,
    pub grade: u16,
    pub lucky: u32,
    pub exp: u128,
    pub start_at: u32,
}

/// Everything the token store keeps for one Cybor.
#[derive(Debug, PartialEq, Eq)]
pub struct CyborRecord {
    pub metadata: CyborMetadata,
    pub dynamic: CyborDynamic,
    pub frozen: bool,
}

/// A `CyborRecord` as a mathematical value.
pub struct CyborRecordView {
    pub metadata: CyborMetadataView,
    pub dynamic: CyborDynamic,
    pub frozen: bool,
}

impl View for CyborRecord {
    type V = CyborRecordView;

    open spec fn view(&self) -> CyborRecordView {
        CyborRecordView { metadata: self.metadata@, dynamic: self.dynamic, frozen: self.frozen }
    }
}

} // verus!
