//! Version inventory reconciliation and dependency coordinate resolution for a
//! desktop game launcher.
//!
//! The crate reconciles two sources of installable versions — folders already
//! present on local disk and a remote release catalog — into one ordered,
//! local-first inventory, and resolves Maven-style `group:artifact:version`
//! coordinates into deterministic cache paths. All I/O (disk listing, network
//! probing, manifest fetching and JSON decoding) stays outside: callers hand
//! these functions plain data and get plain data back.

pub mod coordinate;
pub mod errors;
pub mod inventory;
pub mod utils;
