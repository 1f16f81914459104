//! Bookkeeping for contributors to a dataset and the peer validation that ends
//! in a reward or a penalty.
//!
//! [`Contract`] holds the rules of the ledger of [`Colaborador`] records. The
//! state machine of one record is in [`record`], what a call asks of the
//! caller that keeps the records in [`effects`], the mathematical model of
//! the whole ledger in [`model`], and what holds of all of them in [`laws`].
pub mod effects;
pub mod events;
pub mod keys;
pub mod laws;
pub mod ledger;
pub mod model;
pub mod record;

pub use crate::effects::{Effects, Transfer};
pub use crate::events::Event;
pub use crate::ledger::{Contract, LedgerError};
pub use crate::record::{Colaborador, Outcome};
