//! Bitcoin addresses, as far as the engine reads them.
use vstd::prelude::*;

use core::str::FromStr;

use crate::model::Network;

verus! {

/// Whether the string parses as a Bitcoin address of some network.
pub uninterp spec fn address_parses(s: Seq<char>) -> bool;

/// Whether a parsed address may be used on the given network.
pub uninterp spec fn address_valid_for(s: Seq<char>, network: Network) -> bool;

/// Whether a parsed address is a segwit v0 script-hash (P2WSH) address.
pub uninterp spec fn address_is_p2wsh(s: Seq<char>) -> bool;

/// The output script that pays a parsed address.
pub uninterp spec fn address_script_of(s: Seq<char>) -> Seq<u8>;

/// What the library reads of a Bitcoin address.
pub struct ParsedAddress {
    pub valid_for_network: bool,
    pub p2wsh: bool,
    pub script_pubkey: Vec<u8>,
}

/// Relies on bitcoin's `Address::from_str`, `Address::is_valid_for_network`,
/// `Address::address_type` and `Address::script_pubkey`.
#[verifier::external_body]
pub(crate) fn parse_address(s: &str, network: Network) -> (r: Option<ParsedAddress>)
    ensures
        r is Some <==> address_parses(s@),
        r matches Some(a) ==> {
            &&& a.valid_for_network == address_valid_for(s@, network)
            &&& a.p2wsh == address_is_p2wsh(s@)
            &&& a.script_pubkey@ == address_script_of(s@)
        },
{
    let net = match network {
        Network::Bitcoin => bitcoin::Network::Bitcoin,
        Network::Testnet => bitcoin::Network::Testnet,
        Network::Signet => bitcoin::Network::Signet,
        Network::Regtest => bitcoin::Network::Regtest,
    };
    bitcoin::Address::from_str(s).ok().map(|a| ParsedAddress {
        valid_for_network: a.is_valid_for_network(net),
        p2wsh: a.address_type() == Some(bitcoin::AddressType::P2wsh),
        script_pubkey: a.script_pubkey().to_bytes(),
    })
}

/// Whether the string is an address that may be used on the network.
pub open spec fn address_valid(s: Seq<char>, network: Network) -> bool {
    address_parses(s) && address_valid_for(s, network)
}

/// Checks that a destination is an address of the network.
pub fn validate_address(s: &str, network: Network) -> (r: bool)
    ensures
        r == address_valid(s@, network),
{
    match parse_address(s, network) {
        Some(a) => a.valid_for_network,
        None => false,
    }
}

} // verus!
