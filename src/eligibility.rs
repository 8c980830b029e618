use vstd::prelude::*;
use vstd::string::*;
use nostr_types::PublicKey;
use crate::identity::{is_key_hex, public_key_from_hex, pubkey_hex_accepted, url_path, url_path_of};
use crate::relay::Relay;
use crate::text::{contains_seq, contains_text};

verus! {

/// A relay whose URL holds this text is left out: the maintainer's own relay,
/// whose statistics are inflated by archival use.
pub const EXCLUDED_URL_TEXT: &'static str = "mikedilger";

/// The path of a relay's root endpoint.
pub open spec fn root_path() -> Seq<char> {
    seq!['/']
}

/// The relay may be ranked: it has worked at least once, it is served at the
/// root path, it publishes an information document with a valid operator key,
/// it asks for no payment and no fees, and it is not the excluded relay.
pub open spec fn eligible(relay: Relay) -> bool {
    &&& relay.success_count > 0
    &&& url_path_of(relay.url@) == Some(root_path())
    &&& relay.nip11 is Some
    &&& relay.nip11->0.pubkey is Some
    &&& pubkey_hex_accepted(relay.nip11->0.pubkey->0@)
    &&& relay.nip11->0.payments_url is None
    &&& !relay.nip11->0.has_fees
    &&& !contains_seq(relay.url@, EXCLUDED_URL_TEXT@)
}

/// A relay that passed the filter, with its operator's parsed public key.
pub struct Candidate {
    relay: Relay,
    pubkey: PublicKey,
}

impl Candidate {
    #[verifier::type_invariant]
    spec fn inv(self) -> bool {
        eligible(self.relay)
    }

    /// The relay record of this candidate.
    pub closed spec fn relay_view(self) -> Relay {
        self.relay
    }

    pub fn relay(&self) -> (r: &Relay)
        ensures
            *r == self.relay_view(),
            eligible(*r),
    {
        proof {
            use_type_invariant(self);
        }
        &self.relay
    }

    /// The operator's public key, parsed from the information document.
    pub fn pubkey(&self) -> &PublicKey {
        &self.pubkey
    }
}

fn is_root_path(p: &str) -> (r: bool)
    ensures
        r == (p@ == root_path()),
{
    if p.unicode_len() == 1 && p.get_char(0) == '/' {
        assert(p@ =~= root_path());
        true
    } else {
        false
    }
}

/// Keeps the relay if it is eligible, with its operator's key; drops it
/// otherwise. Each condition of eligibility excludes the relay on its own.
pub fn filter(relay: Relay) -> (r: Option<Candidate>)
    ensures
        r is Some <==> eligible(relay),
        r matches Some(c) ==> c.relay_view() == relay,
        relay.success_count == 0 ==> r is None,
        url_path_of(relay.url@) != Some(root_path()) ==> r is None,
        relay.nip11 is None ==> r is None,
        relay.nip11 matches Some(info) && (info.pubkey is None || !is_key_hex(
            info.pubkey->0@,
        )) ==> r is None,
        relay.nip11 matches Some(info) && (info.payments_url is Some || info.has_fees)
            ==> r is None,
        contains_seq(relay.url@, EXCLUDED_URL_TEXT@) ==> r is None,
{
    if relay.success_count == 0 {
        return None;
    }
    match url_path(relay.url.as_str()) {
        Some(p) => {
            if !is_root_path(p.as_str()) {
                return None;
            }
        },
        None => {
            return None;
        },
    }
    let info = match &relay.nip11 {
        Some(info) => info,
        None => {
            return None;
        },
    };
    let pubkey = match &info.pubkey {
        Some(hex) => match public_key_from_hex(hex.as_str()) {
            Some(pk) => pk,
            None => {
                return None;
            },
        },
        None => {
            return None;
        },
    };
    if info.payments_url.is_some() || info.has_fees {
        return None;
    }
    if contains_text(relay.url.as_str(), EXCLUDED_URL_TEXT) {
        return None;
    }
    Some(Candidate { relay, pubkey })
}

} // verus!
