//! A reserve-backed token ledger and the collateral assets that back it.
//!
//! The ledger issues a stable unit whose supply is limited by a liquid
//! reserve and by the appraised value of listed collateral, and charges a
//! small fee on every transfer. The marketplace tracks each collateral
//! asset from listing through risk to liquidation and reports every change
//! of value to the ledger.
//!
//! Every operation takes the state records it works on and the identity of
//! the caller, and answers with the records to publish and the token
//! movements to request. A failed operation leaves every record as it was.

pub mod bridge;
pub mod error;
pub mod guard;
pub mod identity;
pub mod instruction;
pub mod laws;
pub mod outcome;
pub mod rwa_marketplace;
pub mod stablecoin;
pub mod token;

pub use error::{RWAMarketplaceError, StablecoinError};
pub use instruction::StablecoinInstruction;
pub use stablecoin::Config;
