//! Errors in the node's configuration.

use vstd::prelude::*;

use crate::text::{decimal, push_decimal};

verus! {

/// A combination of configuration options the node refuses.
#[derive(Clone, Copy, Debug, PartialEq, Eq, Structural)]
pub enum ConfigError {
    MixedConnectAndAddPeers,
    MixedLogDirAndNoLogFiles,
    RamScaleTooLow,
    RamScaleTooHigh,
    /// Carries the highest number of tracked addresses allowed.
    MaxTrackedAddressesTooHigh(usize),
    PreallocUtxosOnNonDevnet,
    MissingPreallocNumOrAddress,
}

/// Result of a configuration check.
pub type ConfigResult<T> = Result<T, ConfigError>;

/// The text shown for a configuration error.
pub open spec fn config_error_text(e: ConfigError) -> Seq<char> {
    match e {
        ConfigError::MixedConnectAndAddPeers =>
            "Configuration error: --addpeer and --connect cannot be used together"@,
        ConfigError::MixedLogDirAndNoLogFiles =>
            "Configuration error: --logdir and --nologfiles cannot be used together"@,
        ConfigError::RamScaleTooLow => "Configuration error: --ram-scale cannot be set below 0.1"@,
        ConfigError::RamScaleTooHigh => "Configuration error: --ram-scale cannot be set above 10.0"@,
        ConfigError::MaxTrackedAddressesTooHigh(max) =>
            "Configuration error: --max-tracked-addresses cannot be set above "@ + decimal(max as nat),
        ConfigError::PreallocUtxosOnNonDevnet =>
            "Configuration error: Cannot preallocate UTXOs on any network except devnet"@,
        ConfigError::MissingPreallocNumOrAddress =>
            "Configuration error: --num-prealloc-utxos must be used with --prealloc-address and vice versa"@,
    }
}

impl ConfigError {
    /// The text shown for this error.
    pub fn message(&self) -> (text: String)
        ensures
            text@ == config_error_text(*self),
    {
        match self {
            ConfigError::MixedConnectAndAddPeers => "Configuration error: --addpeer and --connect cannot be used together".to_owned(),
            ConfigError::MixedLogDirAndNoLogFiles => "Configuration error: --logdir and --nologfiles cannot be used together".to_owned(),
            ConfigError::RamScaleTooLow => "Configuration error: --ram-scale cannot be set below 0.1".to_owned(),
            ConfigError::RamScaleTooHigh => "Configuration error: --ram-scale cannot be set above 10.0".to_owned(),
            ConfigError::MaxTrackedAddressesTooHigh(max) => {
                let mut text = "Configuration error: --max-tracked-addresses cannot be set above ".to_owned();
                push_decimal(&mut text, *max);
                text
            },
            ConfigError::PreallocUtxosOnNonDevnet => "Configuration error: Cannot preallocate UTXOs on any network except devnet".to_owned(),
            ConfigError::MissingPreallocNumOrAddress => "Configuration error: --num-prealloc-utxos must be used with --prealloc-address and vice versa".to_owned(),
        }
    }
}

} // verus!
