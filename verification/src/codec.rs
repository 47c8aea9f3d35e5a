//! Encodings that connectors put on the wire, decoded by the crates that
//! implement them. Each function here is trusted: its contract names what
//! the outside function returns, and nothing that calls it is proved of the
//! decoding itself.

use base64::Engine;
use sha2::Digest;
use vstd::prelude::*;

verus! {

/// The value of a hexadecimal digit.
pub open spec fn hex_value(digit: u8) -> Option<u8> {
    if 0x30 <= digit <= 0x39 {
        Some((digit - 0x30) as u8)
    } else if 0x41 <= digit <= 0x46 {
        Some((digit - 0x41 + 10) as u8)
    } else if 0x61 <= digit <= 0x66 {
        Some((digit - 0x61 + 10) as u8)
    } else {
        None
    }
}

/// The bytes that a hexadecimal text stands for: two digits, of either case,
/// for each byte. A text of odd length or with any other character stands
/// for nothing.
pub open spec fn hex_decoded(text: Seq<u8>) -> Option<Seq<u8>> {
    if text.len() % 2 != 0 {
        None
    } else if exists|i: int| 0 <= i < text.len() && hex_value(#[trigger] text[i]) is None {
        None
    } else {
        Some(
            Seq::new(
                text.len() / 2,
                |i: int|
                    (hex_value(text[2 * i])->Some_0 * 16 + hex_value(text[2 * i + 1])->Some_0) as u8,
            ),
        )
    }
}

/// Decodes hexadecimal text.
///
/// Trusted: calls `hex::decode`, which rejects a text of odd length and any
/// character that is no hexadecimal digit, and else joins each pair of
/// digits into one byte, the first digit being the upper half.
#[verifier::external_body]
pub(crate) fn hex_decode(text: &[u8]) -> (r: Option<Vec<u8>>)
    ensures
        match hex_decoded(text@) {
            Some(bytes) => r matches Some(decoded) && decoded@ == bytes,
            None => r is None,
        },
{
    hex::decode(text).ok()
}

/// The SHA-256 digest of a message.
pub uninterp spec fn sha256_digest(message: Seq<u8>) -> Seq<u8>;

/// Computes the SHA-256 digest of a message.
///
/// Trusted: calls `sha2::Sha256::digest`; the digest depends on the message
/// alone.
#[verifier::external_body]
pub(crate) fn sha256(message: &[u8]) -> (r: Vec<u8>)
    ensures
        r@ == sha256_digest(message@),
{
    sha2::Sha256::digest(message).to_vec()
}

/// The bytes that a text in standard base64, with padding, stands for, if
/// it stands for any.
pub uninterp spec fn base64_decoded(text: Seq<u8>) -> Option<Seq<u8>>;

/// Decodes standard base64.
///
/// Trusted: calls `decode` of `base64::engine::general_purpose::STANDARD`;
/// whether the text decodes, and to what, depends on the text alone.
#[verifier::external_body]
pub(crate) fn base64_decode(text: &[u8]) -> (r: Option<Vec<u8>>)
    ensures
        match base64_decoded(text@) {
            Some(bytes) => r matches Some(decoded) && decoded@ == bytes,
            None => r is None,
        },
{
    base64::engine::general_purpose::STANDARD.decode(text).ok()
}

/// A list of names and values as plain values.
pub open spec fn pairs_of(pairs: Seq<(String, String)>) -> Seq<(Seq<char>, Seq<char>)> {
    pairs.map_values(|pair: (String, String)| (pair.0@, pair.1@))
}

/// The names and values that a text in the form of a query string holds,
/// in their order, percent-decoded.
pub uninterp spec fn urlencoded_pairs(text: Seq<char>) -> Option<Seq<(Seq<char>, Seq<char>)>>;

/// Splits a query string into its names and values.
///
/// Trusted: calls `serde_urlencoded::from_str` for a list of pairs of
/// strings; what it returns depends on the text alone.
#[verifier::external_body]
pub(crate) fn parse_urlencoded(text: &str) -> (r: Option<Vec<(String, String)>>)
    ensures
        match urlencoded_pairs(text@) {
            Some(pairs) => r matches Some(parsed) && pairs_of(parsed@) == pairs,
            None => r is None,
        },
{
    serde_urlencoded::from_str::<Vec<(String, String)>>(text).ok()
}

/// A member of a JSON object, as far as an adapter reads it.
#[derive(Debug, PartialEq, Eq)]
pub enum JsonMember {
    Null,
    Text(String),
    /// A boolean, a number, an array or an object.
    Other,
}

/// A member of a JSON object as plain values.
pub enum JsonScalar {
    Null,
    Text(Seq<char>),
    Other,
}

impl View for JsonMember {
    type V = JsonScalar;

    open spec fn view(&self) -> JsonScalar {
        match self {
            JsonMember::Null => JsonScalar::Null,
            JsonMember::Text(text) => JsonScalar::Text(text@),
            JsonMember::Other => JsonScalar::Other,
        }
    }
}

/// The members of a JSON object as plain values.
pub open spec fn members_of(members: Seq<(String, JsonMember)>) -> Seq<(Seq<char>, JsonScalar)> {
    members.map_values(|member: (String, JsonMember)| (member.0@, member.1@))
}

/// The members of the JSON object that a document holds, each name once;
/// nothing where the document is no JSON object.
pub uninterp spec fn json_members(document: Seq<u8>) -> Option<Seq<(Seq<char>, JsonScalar)>>;

/// Reads the members of a JSON object.
///
/// Trusted: calls `serde_json::from_slice` for a `serde_json::Map`, and
/// hands each member out as null, as its text, or as something else; the
/// result depends on the document alone.
#[verifier::external_body]
pub(crate) fn parse_json_object(document: &[u8]) -> (r: Option<Vec<(String, JsonMember)>>)
    ensures
        match json_members(document@) {
            Some(members) => r matches Some(parsed) && members_of(parsed@) == members,
            None => r is None,
        },
{
    let map = serde_json::from_slice::<serde_json::Map<String, serde_json::Value>>(document).ok()?;
    Some(
        map.into_iter().map(
            |(name, value)|
                (
                    name,
                    match value {
                        serde_json::Value::Null => JsonMember::Null,
                        serde_json::Value::String(text) => JsonMember::Text(text),
                        _ => JsonMember::Other,
                    },
                ),
        ).collect(),
    )
}

} // verus!
