//! Verified core of the Spectre wallet and node tooling: the partially signed
//! transaction role machine, command decisions of the CLI, the peer-to-peer
//! flow routing table, configuration errors and amount presentation helpers.

pub mod units;
pub mod hex_codec;
pub mod psst;
pub mod psst_laws;
pub mod text;
pub mod config_error;
pub mod cli;
pub mod flows;
pub mod flows_laws;
