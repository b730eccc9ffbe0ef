//! Core of a ledger-style record service for two financial event kinds:
//! recharges (incoming funds to a wallet) and withdraws (outgoing funds,
//! tracked through a status lifecycle).
//!
//! The library holds the record entities, the timestamp wire codec, the
//! withdraw status state machine, the paging/time-filter query planner, and
//! the record store engine (create, get scoped by wallet, paged listing,
//! status updates). An HTTP layer and a persistent store sit outside it and
//! exchange plain values with it.

pub mod error;
pub mod ledger;
pub mod paging;
pub mod query;
pub mod recharge;
pub mod response;
pub mod row;
pub mod status;
pub mod timestamp;
pub mod withdraw;
