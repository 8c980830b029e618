use vstd::prelude::*;

verus! {

/// What a relay publishes about itself, as far as eligibility reads it.
#[derive(Debug, Clone)]
pub struct RelayInformation {
    /// The operator's public key, as hexadecimal text.
    pub pubkey: Option<String>,
    /// Where payments are taken, if the relay asks for them.
    pub payments_url: Option<String>,
    /// The document lists fees.
    pub has_fees: bool,
}

/// One relay record with its connection history.
#[derive(Debug, Clone)]
pub struct Relay {
    /// The relay's address, in canonical form.
    pub url: String,
    pub success_count: u64,
    pub failure_count: u64,
    /// Seconds since the epoch of the last successful connection.
    pub last_connected_at: Option<u64>,
    pub last_general_eose_at: Option<u64>,
    pub rank: u64,
    pub hidden: bool,
    pub usage_bits: u64,
    /// The relay's information document, when one was fetched.
    pub nip11: Option<RelayInformation>,
    pub last_attempt_nip11: Option<u64>,
}

} // verus!
