//! Gatekeeper core: a deterministic state machine that audits and rewards
//! mining workers, with its fixed-point tokenomic model.

pub mod fixed_point;
pub mod tokenomic;
pub mod hashing;
pub mod messages;
pub mod worker;
pub mod channel;
pub mod beacon;
pub mod gk;
pub mod processor;
pub mod worker_info;
pub mod prpc;
pub mod pal;
