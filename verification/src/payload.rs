use vstd::prelude::*;
use crate::error::SignError;

verus! {

/// The value of a hexadecimal digit, upper or lower case; `None` for any
/// other character.
pub open spec fn hex_digit(c: char) -> Option<u8> {
    if '0' <= c <= '9' {
        Some((c as u32 - '0' as u32) as u8)
    } else if 'a' <= c <= 'f' {
        Some((c as u32 - 'a' as u32 + 10) as u8)
    } else if 'A' <= c <= 'F' {
        Some((c as u32 - 'A' as u32 + 10) as u8)
    } else {
        None
    }
}

/// A text is a hex payload when it has an even number of characters and
/// each of them is a hexadecimal digit. The empty text is one.
pub open spec fn is_hex_text(text: Seq<char>) -> bool {
    &&& text.len() % 2 == 0
    &&& forall|i: int| 0 <= i < text.len() ==> hex_digit(#[trigger] text[i]).is_some()
}

/// The bytes that a hex payload stands for: two digits per byte, the high
/// one first.
pub open spec fn hex_bytes(text: Seq<char>) -> Seq<u8> {
    Seq::new(
        (text.len() / 2) as nat,
        |i: int| (16 * hex_digit(text[2 * i]).unwrap() + hex_digit(text[2 * i + 1]).unwrap()) as u8,
    )
}

/// The Keccak-256 digest of a byte string.
pub uninterp spec fn keccak256(bytes: Seq<u8>) -> Seq<u8>;

/// The digest handed to the signer for a decoded payload: its Keccak-256
/// digest with the byte order reversed.
pub open spec fn signing_digest(bytes: Seq<u8>) -> Seq<u8> {
    keccak256(bytes).reverse()
}

/// `hex::FromHexError`, the reason that `hex::decode` gives for a refusal.
/// Nothing is read from it: every refusal becomes `MalformedPayload`.
#[verifier::external_type_specification]
#[verifier::external_body]
pub struct ExFromHexError(hex::FromHexError);

/// `hex::decode` on the text's bytes. It succeeds exactly on an even number
/// of hexadecimal digits, and then each byte is sixteen times the first
/// digit of its pair plus the second. A character outside ASCII is encoded
/// in bytes that are no digits, so it is refused like any other non-digit.
#[verifier::external_body]
fn hex_decode(text: &str) -> (decoded: Result<Vec<u8>, hex::FromHexError>)
    ensures
        decoded.is_ok() <==> is_hex_text(text@),
        decoded matches Ok(bytes) ==> bytes@ == hex_bytes(text@),
{
    hex::decode(text)
}

/// `near_sdk::env::keccak256_array`: the 32-byte Keccak-256 digest of
/// `bytes`, a function of the bytes alone. Nothing more is claimed of the
/// digest than that it is this function's value.
///
/// This crate builds `near_sdk` for use outside a contract, where the
/// digest is computed in plain Rust, for input of any length and however
/// often. With `near_sdk`'s simulated or real chain in its place the host
/// computes the same digest but charges gas for it and ends a call that
/// runs out of gas; nothing here is proved of such a build.
#[verifier::external_body]
fn keccak256_array(bytes: &[u8]) -> (digest: [u8; 32])
    ensures
        digest@ == keccak256(bytes@),
{
    near_sdk::env::keccak256_array(bytes)
}

/// Whether `outcome` is the result of decoding `text`: the bytes of a hex
/// payload, `MalformedPayload` for every other text.
pub open spec fn decodes_to(text: Seq<char>, outcome: Result<Vec<u8>, SignError>) -> bool {
    match outcome {
        Ok(bytes) => is_hex_text(text) && bytes@ == hex_bytes(text),
        Err(e) => !is_hex_text(text) && e == SignError::MalformedPayload,
    }
}

/// Whether `outcome` is the result of digesting `text`: the signing digest
/// of the bytes of a hex payload, `MalformedPayload` for every other text.
pub open spec fn digests_to(text: Seq<char>, outcome: Result<[u8; 32], SignError>) -> bool {
    match outcome {
        Ok(digest) => is_hex_text(text) && digest@ == signing_digest(hex_bytes(text)),
        Err(e) => !is_hex_text(text) && e == SignError::MalformedPayload,
    }
}

/// Decodes a hex payload into the bytes it stands for.
pub fn decode_payload(text: &str) -> (decoded: Result<Vec<u8>, SignError>)
    ensures
        decodes_to(text@, decoded),
{
    match hex_decode(text) {
        Ok(bytes) => Ok(bytes),
        Err(_) => Err(SignError::MalformedPayload),
    }
}

/// Reverses the byte order of a digest.
pub fn reverse_digest(digest: [u8; 32]) -> (reversed: [u8; 32])
    ensures
        reversed@ == digest@.reverse(),
{
    let mut reversed = [0u8; 32];
    let mut i: usize = 0;
    while i < 32
        invariant
            i <= 32,
            forall|j: int| 0 <= j < i ==> reversed@[j] == digest@[31 - j],
        decreases 32 - i,
    {
        reversed[i] = digest[31 - i];
        i += 1;
    }
    assert(reversed@ =~= digest@.reverse());
    reversed
}

/// The digest to be signed for a hex payload: decode, hash with Keccak-256,
/// reverse the byte order.
pub fn payload_digest(text: &str) -> (digest: Result<[u8; 32], SignError>)
    ensures
        digests_to(text@, digest),
{
    match decode_payload(text) {
        Ok(bytes) => Ok(reverse_digest(keccak256_array(bytes.as_slice()))),
        Err(e) => Err(e),
    }
}

/// Decoding depends on the text alone: two results of decoding one text
/// are both failures, or hold the same bytes.
pub proof fn lemma_decoding_deterministic(
    text: Seq<char>,
    first: Result<Vec<u8>, SignError>,
    second: Result<Vec<u8>, SignError>,
)
    requires
        decodes_to(text, first),
        decodes_to(text, second),
    ensures
        match (first, second) {
            (Ok(a), Ok(b)) => a@ == b@,
            (Err(a), Err(b)) => a == b,
            _ => false,
        },
{
}

/// Digesting depends on the text alone: two results of digesting one text
/// are equal.
pub proof fn lemma_digest_deterministic(
    text: Seq<char>,
    first: Result<[u8; 32], SignError>,
    second: Result<[u8; 32], SignError>,
)
    requires
        digests_to(text, first),
        digests_to(text, second),
    ensures
        first == second,
{
    match (first, second) {
        (Ok(a), Ok(b)) => {
            assert(a@ =~= b@);
            assert(a =~= b);
        },
        _ => {},
    }
}

/// Reversing the byte order of a digest twice gives the digest back.
pub proof fn lemma_reverse_twice(digest: [u8; 32])
    ensures
        digest@.reverse().reverse() == digest@,
{
    assert(digest@.reverse().reverse() =~= digest@);
}

/// A text with an odd number of characters, or with a character that is no
/// hexadecimal digit, is no hex payload.
pub proof fn lemma_malformed_text(text: Seq<char>, at: int)
    requires
        text.len() % 2 == 1 || (0 <= at < text.len() && hex_digit(text[at]).is_none()),
    ensures
        !is_hex_text(text),
{
}

} // verus!
