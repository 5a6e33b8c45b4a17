pub mod cybor_template;
pub mod events;
pub mod laws;
pub mod ledger;
pub mod listing;
pub mod record;
pub mod service;
pub mod state;
pub mod stream;

pub use cybor_template::{CyborRace, CyborTemplate};
pub use events::{CyborError, CyborEvents, DebugInfo, MessageContext, Refund};
pub use record::{CyborDynamic, CyborMetadata};
pub use service::CyborNFTService;
pub use state::CyborState;
pub use stream::CyborStream;
