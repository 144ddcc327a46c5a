//! What the library takes from the crates it is built on: identifiers, the
//! time of day, random bytes, digests, hexadecimal and JSON text and URL
//! parsing.
//!
//! The contracts of the functions in this file are not proved. Each one says
//! what the source of the function it wraps shows, and no more.

use hmac::Mac;
use sha2::Digest;
use vstd::arithmetic::power::pow;
use vstd::prelude::*;

verus! {

/// The sixteen hexadecimal digits in lower case.
pub open spec fn hex_digit(nibble: int) -> char
    recommends
        0 <= nibble < 16,
{
    seq!['0', '1', '2', '3', '4', '5', '6', '7', '8', '9', 'a', 'b', 'c', 'd', 'e', 'f'][nibble]
}

/// Two lower-case hexadecimal digits for each byte, the high half first.
pub open spec fn hex_encode(bytes: Seq<u8>) -> Seq<char> {
    Seq::new(
        2 * bytes.len(),
        |i: int|
            if i % 2 == 0 {
                hex_digit(bytes[i / 2] as int / 16)
            } else {
                hex_digit(bytes[i / 2] as int % 16)
            },
    )
}

/// The sixteen bytes of an identifier, the most significant first.
pub open spec fn id_bytes(id: u128) -> Seq<u8> {
    Seq::new(16, |i: int| ((id as int / pow(256, (15 - i) as nat)) % 256) as u8)
}

/// An identifier in the hyphenated form `8-4-4-4-12` of lower-case
/// hexadecimal digits.
pub open spec fn id_text(id: u128) -> Seq<char> {
    let digits = hex_encode(id_bytes(id));
    digits.subrange(0, 8) + seq!['-'] + digits.subrange(8, 12) + seq!['-'] + digits.subrange(
        12,
        16,
    ) + seq!['-'] + digits.subrange(16, 20) + seq!['-'] + digits.subrange(20, 32)
}

/// A text as a JSON string: in double quotes, with the characters escaped
/// that JSON wants escaped.
pub uninterp spec fn json_string(text: Seq<char>) -> Seq<char>;

/// A time, given in microseconds since the Unix epoch, in the notation of
/// RFC 3339 with `Z` for UTC and as many fractional digits as the time needs,
/// or nothing if the time is out of the range of the calendar.
pub uninterp spec fn rfc3339(micros: i64) -> Option<Seq<char>>;

/// The HMAC-SHA256 tag of `message` under `key`.
pub uninterp spec fn hmac_sha256(key: Seq<u8>, message: Seq<u8>) -> Seq<u8>;

/// The SHA-256 digest of `data`.
pub uninterp spec fn sha256(data: Seq<u8>) -> Seq<u8>;

/// Scheme and host of the URL that `text` parses to, or nothing if `text` is
/// no URL.
pub uninterp spec fn url_parts(text: Seq<char>) -> Option<(Seq<char>, Option<Seq<char>>)>;

/// What the validation of an endpoint reads from a parsed URL.
#[derive(Debug, PartialEq, Eq)]
pub struct ParsedUrl {
    /// The scheme in lower case, without the colon.
    pub scheme: String,
    /// The host, if the URL has one.
    pub host: Option<String>,
}

impl View for ParsedUrl {
    type V = (Seq<char>, Option<Seq<char>>);

    open spec fn view(&self) -> (Seq<char>, Option<Seq<char>>) {
        (self.scheme@, self.host.deep_view())
    }
}

impl DeepView for ParsedUrl {
    type V = (Seq<char>, Option<Seq<char>>);

    open spec fn deep_view(&self) -> (Seq<char>, Option<Seq<char>>) {
        self@
    }
}

/// A new random identifier, from `uuid::Uuid::new_v4`.
///
/// Nothing is claimed about the random bits. The four version bits are
/// `0100` and the two variant bits are `10`, which `new_v4` sets by masking.
#[verifier::external_body]
pub(crate) fn fresh_id() -> (id: u128)
    ensures
        id & 0x0000_0000_0000_f000_c000_0000_0000_0000 == 0x0000_0000_0000_4000_8000_0000_0000_0000,
{
    uuid::Uuid::new_v4().as_u128()
}

/// The text of an identifier, from `uuid::Uuid::from_u128` and the `Display`
/// of `Uuid`.
///
/// `from_u128` takes the bytes of the number in big-endian order, and
/// `Display` writes them as lower-case hexadecimal digits with hyphens after
/// the digits 8, 12, 16 and 20.
#[verifier::external_body]
pub(crate) fn id_to_text(id: u128) -> (text: String)
    ensures
        text@ == id_text(id),
{
    uuid::Uuid::from_u128(id).to_string()
}

/// The current time in microseconds since the Unix epoch, from
/// `chrono::Utc::now` and `DateTime::timestamp_micros`.
///
/// Nothing is claimed about the value. `Utc::now` panics if the system clock
/// stands before 1970.
#[verifier::external_body]
pub(crate) fn current_time() -> (now: i64) {
    chrono::Utc::now().timestamp_micros()
}

/// A time in the notation of RFC 3339, from
/// `chrono::DateTime::from_timestamp_micros` and `DateTime::to_rfc3339_opts`
/// with `SecondsFormat::AutoSi` and `Z` for UTC.
///
/// This is the notation in which `chrono` writes a time for `serde`. The
/// result depends on the number alone; it is nothing where
/// `from_timestamp_micros` finds the number out of range.
#[verifier::external_body]
pub(crate) fn time_to_text(micros: i64) -> (text: Option<String>)
    ensures
        text.deep_view() == rfc3339(micros),
{
    match chrono::DateTime::<chrono::Utc>::from_timestamp_micros(micros) {
        Some(time) => Some(time.to_rfc3339_opts(chrono::SecondsFormat::AutoSi, true)),
        None => None,
    }
}

/// A text as a JSON string, from `serde_json::to_string`.
///
/// The result depends on the text alone. `to_string` fails only where a
/// value refuses to be serialized or a map has keys that are no strings; a
/// text is neither, so it never fails here.
#[verifier::external_body]
pub(crate) fn quote_json(text: &str) -> (quoted: String)
    ensures
        quoted@ == json_string(text@),
{
    serde_json::to_string(text).expect("a text is always serialized")
}

/// Thirty-two random bytes, from `rand::random`.
///
/// Only the length is claimed: the bytes come from the thread-local
/// generator of `rand`, which is seeded by the operating system.
#[verifier::external_body]
pub(crate) fn random_bytes() -> (bytes: Vec<u8>)
    ensures
        bytes@.len() == 32,
{
    rand::random::<[u8; 32]>().to_vec()
}

/// The lower-case hexadecimal text of `bytes`, from `hex::encode`.
///
/// `hex::encode` writes each byte as two digits taken from the table
/// `0123456789abcdef`, the high half first.
#[verifier::external_body]
pub(crate) fn hex_string(bytes: &[u8]) -> (text: String)
    ensures
        text@ == hex_encode(bytes@),
{
    hex::encode(bytes)
}

/// The HMAC-SHA256 tag of `message` under `key`, from `hmac::Hmac<sha2::Sha256>`.
///
/// The tag depends on key and message alone and is 32 bytes long.
/// `new_from_slice` accepts a key of any length, so it never fails here.
#[verifier::external_body]
pub(crate) fn hmac_sha256_tag(key: &[u8], message: &[u8]) -> (tag: Vec<u8>)
    ensures
        tag@ == hmac_sha256(key@, message@),
        tag@.len() == 32,
{
    let mut mac = hmac::Hmac::<sha2::Sha256>::new_from_slice(key).expect("HMAC key length is valid");
    mac.update(message);
    mac.finalize().into_bytes().to_vec()
}

/// The SHA-256 digest of `data`, from `sha2::Sha256`.
///
/// The digest depends on the data alone and is 32 bytes long.
#[verifier::external_body]
pub(crate) fn sha256_digest(data: &[u8]) -> (digest: Vec<u8>)
    ensures
        digest@ == sha256(data@),
        digest@.len() == 32,
{
    let mut hasher = sha2::Sha256::new();
    hasher.update(data);
    hasher.finalize().to_vec()
}

/// Scheme and host of `text` as `url::Url::parse` reads it, or nothing if
/// `text` does not parse.
///
/// The scheme is what `Url::scheme` returns and the host what
/// `Url::host_str` returns. Both depend on the text alone.
#[verifier::external_body]
pub(crate) fn parse_url(text: &str) -> (parsed: Option<ParsedUrl>)
    ensures
        parsed.deep_view() == url_parts(text@),
{
    match url::Url::parse(text) {
        Ok(url) => Some(
            ParsedUrl { scheme: url.scheme().to_string(), host: url.host_str().map(String::from) },
        ),
        Err(_) => None,
    }
}

} // verus!
