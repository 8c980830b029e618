use vstd::prelude::*;
use nostr_types::PublicKey;

verus! {

#[verifier::external_type_specification]
#[verifier::external_body]
pub struct ExPublicKey(nostr_types::PublicKey);

/// The path of the URL written `url`, `None` where it does not parse.
pub uninterp spec fn url_path_of(url: Seq<char>) -> Option<Seq<char>>;

/// `hex` is accepted as the hexadecimal form of a public key.
pub uninterp spec fn pubkey_hex_accepted(hex: Seq<char>) -> bool;

/// An ASCII hexadecimal digit, in either case.
pub open spec fn is_hex_digit(c: char) -> bool {
    ('0' <= c && c <= '9') || ('a' <= c && c <= 'f') || ('A' <= c && c <= 'F')
}

/// Sixty-four hexadecimal digits: the text of a 32-byte key.
pub open spec fn is_key_hex(s: Seq<char>) -> bool {
    s.len() == 64 && forall|i: int| 0 <= i < s.len() ==> is_hex_digit(s[i])
}

/// Relies on url::Url::parse and url::Url::path: the path of the parsed URL,
/// `None` where parsing fails.
#[verifier::external_body]
pub(crate) fn url_path(url: &str) -> (r: Option<String>)
    ensures
        match r {
            Some(p) => url_path_of(url@) == Some(p@),
            None => url_path_of(url@) is None,
        },
{
    match url::Url::parse(url) {
        Ok(u) => Some(u.path().to_owned()),
        Err(_) => None,
    }
}

/// Relies on nostr_types::PublicKey::try_from_hex_string, which decodes with
/// hex::decode (an even number of ASCII hex digits), wants 32 bytes, and then
/// lets k256 check the key.
#[verifier::external_body]
pub(crate) fn public_key_from_hex(hex: &str) -> (r: Option<PublicKey>)
    ensures
        r is Some <==> pubkey_hex_accepted(hex@),
        r is Some ==> is_key_hex(hex@),
{
    match PublicKey::try_from_hex_string(hex) {
        Ok(pk) => Some(pk),
        Err(_) => None,
    }
}

} // verus!
