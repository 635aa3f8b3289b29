//! Content-derived row identifiers.
//!
//! Outbound payloads and inbound envelopes are keyed by identifiers that are
//! pure functions of their content, so that resubmitting or redelivering the
//! same logical item always derives the same key and deduplication happens by
//! construction, without any central counter.

use vstd::prelude::*;
use vstd::string::StringExecFns;
use vstd::string::StrSliceExecFns;
use vstd::slice::slice_to_vec;
use sha2::Digest;

verus! {

/// The lowercase hexadecimal digit for a nibble value.
pub open spec fn hex_digit_char(n: u8) -> char
    recommends
        n < 16,
{
    if n == 0 {
        '0'
    } else if n == 1 {
        '1'
    } else if n == 2 {
        '2'
    } else if n == 3 {
        '3'
    } else if n == 4 {
        '4'
    } else if n == 5 {
        '5'
    } else if n == 6 {
        '6'
    } else if n == 7 {
        '7'
    } else if n == 8 {
        '8'
    } else if n == 9 {
        '9'
    } else if n == 10 {
        'a'
    } else if n == 11 {
        'b'
    } else if n == 12 {
        'c'
    } else if n == 13 {
        'd'
    } else if n == 14 {
        'e'
    } else {
        'f'
    }
}

/// Lowercase hexadecimal rendering of a byte sequence: two digits per byte,
/// high nibble first.
pub open spec fn hex_of(bytes: Seq<u8>) -> Seq<char>
    decreases bytes.len(),
{
    if bytes.len() == 0 {
        Seq::<char>::empty()
    } else {
        seq![
            hex_digit_char((bytes[0] / 16) as u8),
            hex_digit_char((bytes[0] % 16) as u8),
        ] + hex_of(bytes.drop_first())
    }
}

/// The decimal digit character for a value below ten.
pub open spec fn dec_digit_char(n: int) -> char
    recommends
        0 <= n < 10,
{
    if n == 0 {
        '0'
    } else if n == 1 {
        '1'
    } else if n == 2 {
        '2'
    } else if n == 3 {
        '3'
    } else if n == 4 {
        '4'
    } else if n == 5 {
        '5'
    } else if n == 6 {
        '6'
    } else if n == 7 {
        '7'
    } else if n == 8 {
        '8'
    } else {
        '9'
    }
}

/// Decimal digits of a non-negative integer, most significant first, with no
/// leading zeros.
pub open spec fn dec_digits_of(n: int) -> Seq<char>
    recommends
        n >= 0,
    decreases n,
{
    if n < 10 {
        seq![dec_digit_char(n)]
    } else {
        dec_digits_of(n / 10).push(dec_digit_char(n % 10))
    }
}

/// Decimal rendering of an integer: a minus sign for negative values, then
/// the digits of the magnitude.
pub open spec fn dec_of(n: int) -> Seq<char> {
    if n < 0 {
        seq!['-'] + dec_digits_of(-n)
    } else {
        dec_digits_of(n)
    }
}

/// The SHA-256 digest of a byte sequence. The digest is computed by an
/// outside cryptographic library; only its determinism and length are relied
/// on here, never its internal structure.
pub uninterp spec fn sha256_of(bytes: Seq<u8>) -> Seq<u8>;

/// The base-128 varint encoding of an unsigned value: seven bits per byte,
/// least significant group first, the high bit marking a continuation.
pub open spec fn varint_of(n: nat) -> Seq<u8>
    decreases n,
{
    if n < 128 {
        seq![n as u8]
    } else {
        seq![(128 + n % 128) as u8] + varint_of(n / 128)
    }
}

/// The protobuf wire encoding of a string message: nothing for the empty
/// string, else the field-one length-delimited key byte, the varint length
/// of the UTF-8 bytes, then those bytes.
pub open spec fn proto_string_bytes(s: Seq<char>) -> Seq<u8> {
    let bytes = vstd::utf8::encode_utf8(s);
    if bytes.len() == 0 {
        Seq::<u8>::empty()
    } else {
        seq![0x0au8] + varint_of(bytes.len()) + bytes
    }
}

/// The canonical text an outbound payload identifier is derived from: the
/// creation time in decimal, a colon, then the content topic.
pub open spec fn canonical_payload_input(created_at_ns: i64, content_topic: Seq<char>) -> Seq<
    char,
> {
    dec_of(created_at_ns as int) + seq![':'] + content_topic
}

/// The derived identifier of an outbound payload: the lowercase hex digest of
/// the protobuf-encoded canonical text. A pure function of
/// `(created_at_ns, content_topic)`, so resubmission derives the same key.
pub open spec fn payload_id_of(created_at_ns: i64, content_topic: Seq<char>) -> Seq<char> {
    hex_of(sha256_of(proto_string_bytes(canonical_payload_input(created_at_ns, content_topic))))
}

/// The derived identifier of an inbound envelope: the lowercase hex digest of
/// the payload bytes followed by the UTF-8 bytes of the topic. A pure
/// function of the envelope content, so redelivery derives the same key.
pub open spec fn inbound_id_of(payload: Seq<u8>, topic: Seq<char>) -> Seq<char> {
    hex_of(sha256_of(payload + vstd::utf8::encode_utf8(topic)))
}

/// Relies on sha2's SHA-256: the digest is 32 bytes and depends on the input
/// bytes alone.
#[verifier::external_body]
pub(crate) fn sha256_digest(bytes: &Vec<u8>) -> (r: Vec<u8>)
    ensures
        r@ == sha256_of(bytes@),
        r@.len() == 32,
{
    sha2::Sha256::digest(bytes.as_slice()).to_vec()
}

/// Relies on hex::encode: two lowercase hexadecimal digits per input byte,
/// high nibble first.
#[verifier::external_body]
pub(crate) fn hex_encode(bytes: &Vec<u8>) -> (r: String)
    ensures
        r@ == hex_of(bytes@),
{
    hex::encode(bytes.as_slice())
}

/// Relies on prost's `Message` implementation for `String`: the empty
/// string encodes to nothing, and any other to the field-one
/// length-delimited key byte, the varint byte length, then the UTF-8 bytes.
#[verifier::external_body]
pub(crate) fn proto_encode_string(s: &String) -> (r: Vec<u8>)
    ensures
        r@ == proto_string_bytes(s@),
{
    prost::Message::encode_to_vec(s)
}

/// Relies on i64's `Display` implementation: a minus sign for negative
/// values, then the decimal digits of the magnitude without leading zeros.
#[verifier::external_body]
pub(crate) fn i64_to_decimal(n: i64) -> (r: String)
    ensures
        r@ == dec_of(n as int),
{
    n.to_string()
}

/// Derive the identifier of an outbound payload from its creation time and
/// content topic.
pub fn payload_id(created_at_ns: i64, content_topic: &str) -> (r: String)
    ensures
        r@ == payload_id_of(created_at_ns, content_topic@),
{
    let mut canonical = i64_to_decimal(created_at_ns);
    canonical.append(":");
    canonical.append(content_topic);
    proof {
        reveal_strlit(":");
        assert(canonical@ =~= canonical_payload_input(created_at_ns, content_topic@));
    }
    let encoded = proto_encode_string(&canonical);
    let digest = sha256_digest(&encoded);
    hex_encode(&digest)
}

/// Derive the identifier of an inbound envelope from its payload bytes and
/// topic.
pub fn inbound_id(payload: &Vec<u8>, topic: &str) -> (r: String)
    ensures
        r@ == inbound_id_of(payload@, topic@),
{
    let mut input = slice_to_vec(payload.as_slice());
    let mut topic_bytes = topic.as_bytes_vec();
    input.append(&mut topic_bytes);
    let digest = sha256_digest(&input);
    hex_encode(&digest)
}

} // verus!
