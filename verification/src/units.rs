use vstd::prelude::*;

verus! {

/// Number of sompi (the smallest unit) in one SPR.
pub const SOMPI_PER_SPECTRE: u64 = 100_000_000;

/// The networks a node or wallet can be attached to.
#[derive(Clone, Copy, Debug, PartialEq, Eq, Structural)]
pub enum NetworkType {
    Mainnet,
    Testnet,
    Simnet,
    Devnet,
}

/// The currency ticker shown after amounts on a given network.
pub open spec fn suffix_of(network_type: NetworkType) -> Seq<char> {
    match network_type {
        NetworkType::Mainnet => "SPR"@,
        NetworkType::Testnet => "TSPR"@,
        NetworkType::Simnet => "SSPR"@,
        NetworkType::Devnet => "DSPR"@,
    }
}

/// Currency ticker of `network_type`.
pub fn spectre_suffix(network_type: &NetworkType) -> (suffix: &'static str)
    ensures
        suffix@ == suffix_of(*network_type),
{
    match network_type {
        NetworkType::Mainnet => "SPR",
        NetworkType::Testnet => "TSPR",
        NetworkType::Simnet => "SSPR",
        NetworkType::Devnet => "DSPR",
    }
}

/// Joins an amount already rendered as text and the currency ticker of the
/// network, separated by a space.
pub fn with_suffix(amount_text: &str, network_type: &NetworkType) -> (text: String)
    ensures
        text@ == amount_text@ + " "@ + suffix_of(*network_type),
{
    let mut text = amount_text.to_owned();
    text.append(" ");
    text.append(spectre_suffix(network_type));
    text
}

/// The ticker of each network.
pub proof fn lemma_suffixes()
    ensures
        suffix_of(NetworkType::Mainnet) == "SPR"@,
        suffix_of(NetworkType::Testnet) == "TSPR"@,
        suffix_of(NetworkType::Simnet) == "SSPR"@,
        suffix_of(NetworkType::Devnet) == "DSPR"@,
{
}

} // verus!
