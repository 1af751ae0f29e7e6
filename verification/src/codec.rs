//! Binary-to-text encoding of file contents.
//!
//! Raw bytes read from a file are turned into a text-safe string so that a
//! caller living in a text-only channel can receive them; decoding that
//! string gives the original bytes back. The encoding itself is done by the
//! `base64` crate (standard alphabet, with padding); its results are named by
//! an uninterpreted spec function, and everything around the two calls is
//! verified against that name.

use vstd::prelude::*;

verus! {

/// The text-safe encoding of a byte sequence, as `base64::encode` produces
/// it: standard alphabet, with padding.
pub uninterp spec fn base64_of(bytes: Seq<u8>) -> Seq<char>;

/// The exact length of the encoding: four output characters for every
/// complete or partial group of three input bytes.
pub open spec fn base64_len_of(n: nat) -> nat {
    (n + 2) / 3 * 4
}

/// Holds when a byte sequence is small enough for its encoding length to fit
/// in `usize`; beyond it the encoder cannot size its output buffer.
pub open spec fn encodable(bytes: Seq<u8>) -> bool {
    base64_len_of(bytes.len()) <= usize::MAX as int
}

/// Relies on `base64::encode`: the output is a function of the input bytes
/// alone, and its length is exactly four characters per started group of
/// three bytes (`encoded_size` in the crate's source). The input bound keeps
/// that size within `usize`, which is the one case where the call panics.
#[verifier::external_body]
fn encode_base64(bytes: &Vec<u8>) -> (r: String)
    requires
        encodable(bytes@),
    ensures
        r@ == base64_of(bytes@),
        r@.len() == base64_len_of(bytes@.len()),
{
    base64::encode(bytes)
}

/// Relies on `base64::decode`: it is the inverse of `base64::encode`, so a
/// string that the encoder produced decodes to exactly the bytes that were
/// encoded. Of any other input nothing is claimed. The input bound keeps the
/// crate's internal buffer-size arithmetic from overflowing, which is the one
/// case where the call panics.
#[verifier::external_body]
fn decode_base64(s: &str) -> (r: Option<Vec<u8>>)
    requires
        s@.len() * 4 + 8 <= usize::MAX as int,
    ensures
        (exists|b: Seq<u8>| s@ == base64_of(b)) ==> r is Some,
        r matches Some(v) ==> forall|b: Seq<u8>| s@ == base64_of(b) ==> v@ == b,
{
    base64::decode(s).ok()
}

/// Encodes raw bytes into their text-safe representation. Empty content
/// encodes to the empty string.
pub fn encode_bytes(bytes: &Vec<u8>) -> (r: String)
    requires
        encodable(bytes@),
    ensures
        r@ == base64_of(bytes@),
        r@.len() == base64_len_of(bytes@.len()),
        bytes@.len() == 0 ==> r@ == Seq::<char>::empty(),
{
    let r = encode_base64(bytes);
    proof {
        if bytes@.len() == 0 {
            assert(r@ =~= Seq::<char>::empty());
        }
    }
    r
}

/// Decodes a text-safe representation back into raw bytes. Any string that
/// `encode_bytes` produced is accepted and yields the bytes it was made
/// from; a string that is not a valid encoding yields `None`.
pub fn decode_bytes(s: &str) -> (r: Option<Vec<u8>>)
    requires
        s@.len() * 4 + 8 <= usize::MAX as int,
    ensures
        (exists|b: Seq<u8>| s@ == base64_of(b)) ==> r is Some,
        r matches Some(v) ==> forall|b: Seq<u8>| s@ == base64_of(b) ==> v@ == b,
{
    decode_base64(s)
}

/// Round trip: decoding the encoding of any byte sequence gives that
/// sequence back. The bound leaves out only inputs so large that the
/// encoding's length would overflow `usize`.
pub fn encode_then_decode(bytes: &Vec<u8>) -> (r: Option<Vec<u8>>)
    requires
        base64_len_of(bytes@.len()) * 4 + 8 <= usize::MAX as int,
    ensures
        r matches Some(v) && v@ == bytes@,
{
    let s = encode_bytes(bytes);
    decode_bytes(s.as_str())
}

/// Determinism: the encoding of a byte sequence depends on the bytes alone,
/// so equal inputs have equal encodings.
pub proof fn lemma_encoding_deterministic(b1: Seq<u8>, b2: Seq<u8>)
    requires
        b1 == b2,
    ensures
        base64_of(b1) == base64_of(b2),
{
}

/// Turns the outcome of reading a file into the reply sent back to the
/// caller: the bytes of a successful read are encoded, and the message of a
/// failed read is passed through unchanged as the failure reply.
pub fn encode_read_outcome(read: Result<Vec<u8>, String>) -> (r: Result<String, String>)
    requires
        read matches Ok(bytes) ==> encodable(bytes@),
    ensures
        read matches Ok(bytes) ==> (r matches Ok(s) && s@ == base64_of(bytes@)),
        read matches Err(m) ==> (r matches Err(e) && e@ == m@),
{
    match read {
        Ok(bytes) => Ok(encode_bytes(&bytes)),
        Err(m) => Err(m),
    }
}

} // verus!
