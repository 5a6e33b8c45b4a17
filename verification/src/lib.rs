//! A ledger of Cybor tokens: minting and burning, freezing and unfreezing,
//! levelling up, and the queries over them.

use vstd::prelude::*;
use cybor_nft::laws::{consistent, lemma_genesis};
use cybor_nft::ledger::Ledger;
use cybor_nft::{CyborNFTService, CyborState};
use storage::Storage;

pub mod cybor_nft;
pub mod primitives;
pub mod storage;
pub mod tables;

verus! {

/// The program: the state that lives from genesis on, and the services over
/// it.
pub struct SigmaverseProgram {
    cybor: CyborNFTService,
}

impl SigmaverseProgram {
    /// The ledger that the program holds.
    pub closed spec fn ledger(&self) -> Ledger {
        self.cybor@
    }

    /// The program at genesis: an empty ownership store, no Cybor, and the
    /// token counter at its start.
    pub fn default() -> (program: SigmaverseProgram)
        ensures
            program.ledger().records.dom() == Set::<primitives::TokenId>::empty(),
            program.ledger().owner_by_id.dom() == Set::<primitives::TokenId>::empty(),
            program.ledger().tokens_for_owner.dom() == Set::<primitives::ActorId>::empty(),
            program.ledger().token_approvals.dom() == Set::<primitives::TokenId>::empty(),
            program.ledger().counter@ == cybor_nft::events::TOKEN_ID_START,
            consistent(program.ledger()),
    {
        let vnft = Storage::init();
        let state = CyborState::new();
        let program = SigmaverseProgram { cybor: CyborNFTService::init(state, vnft) };
        proof {
            lemma_genesis(program.ledger());
        }
        program
    }

    /// The Cybor service.
    pub fn cybor_nft(&mut self) -> (service: &mut CyborNFTService)
        ensures
            service@ == old(self).ledger(),
            final(self).ledger() == final(service)@,
    {
        &mut self.cybor
    }
}

} // verus!
