//! A ledger of continuous payment streams.
//!
//! A sender locks a sum that becomes available to a recipient at a constant
//! rate over a fixed duration. The recipient may withdraw what has accrued at
//! any time, and either party may cancel the stream, which splits what is
//! still locked between the two.

pub mod error;
pub mod events;
pub mod identity;
pub mod laws;
pub mod ledger;
pub mod settlement;
pub mod stream;

pub use error::Error;
pub use events::{StreamCancelled, StreamCreated, Withdrawn};
pub use identity::Identity;
pub use ledger::{LedgerView, PolkadotStream};
pub use settlement::{Settlement, SettlementView, Transfer};
pub use stream::{Stream, StreamView};
