use spectre::config_error::ConfigError;
use spectre::units::{spectre_suffix, with_suffix, NetworkType, SOMPI_PER_SPECTRE};

#[test]
fn config_error_texts() {
    assert_eq!(
        ConfigError::MixedConnectAndAddPeers.message(),
        "Configuration error: --addpeer and --connect cannot be used together"
    );
    assert_eq!(
        ConfigError::MixedLogDirAndNoLogFiles.message(),
        "Configuration error: --logdir and --nologfiles cannot be used together"
    );
    assert_eq!(ConfigError::RamScaleTooLow.message(), "Configuration error: --ram-scale cannot be set below 0.1");
    assert_eq!(ConfigError::RamScaleTooHigh.message(), "Configuration error: --ram-scale cannot be set above 10.0");
    assert_eq!(
        ConfigError::PreallocUtxosOnNonDevnet.message(),
        "Configuration error: Cannot preallocate UTXOs on any network except devnet"
    );
    assert_eq!(
        ConfigError::MissingPreallocNumOrAddress.message(),
        "Configuration error: --num-prealloc-utxos must be used with --prealloc-address and vice versa"
    );
}

#[test]
fn config_error_renders_the_limit() {
    assert_eq!(
        ConfigError::MaxTrackedAddressesTooHigh(1_073_741_823).message(),
        "Configuration error: --max-tracked-addresses cannot be set above 1073741823"
    );
    assert_eq!(
        ConfigError::MaxTrackedAddressesTooHigh(0).message(),
        "Configuration error: --max-tracked-addresses cannot be set above 0"
    );
    assert_eq!(
        ConfigError::MaxTrackedAddressesTooHigh(10).message(),
        "Configuration error: --max-tracked-addresses cannot be set above 10"
    );
    assert_eq!(
        ConfigError::MaxTrackedAddressesTooHigh(usize::MAX).message(),
        format!("Configuration error: --max-tracked-addresses cannot be set above {}", usize::MAX)
    );
}

#[test]
fn suffixes() {
    assert_eq!(spectre_suffix(&NetworkType::Mainnet), "SPR");
    assert_eq!(spectre_suffix(&NetworkType::Testnet), "TSPR");
    assert_eq!(spectre_suffix(&NetworkType::Simnet), "SSPR");
    assert_eq!(spectre_suffix(&NetworkType::Devnet), "DSPR");
    assert_eq!(with_suffix("1,234.5", &NetworkType::Testnet), "1,234.5 TSPR");
    assert_eq!(SOMPI_PER_SPECTRE, 100_000_000);
}
