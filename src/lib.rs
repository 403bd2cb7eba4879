//! Ledger state engine: protocol parameter evolution across eras and a
//! transactional ledger store with cursor history, UTXO set, parameter log
//! and secondary indexes.

pub mod model;
pub mod params;
pub mod update;
pub mod hardfork;
pub mod fold;
pub mod store;
