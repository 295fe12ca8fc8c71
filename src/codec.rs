//! ABI encoding of the two payload shapes.
//!
//! A payload is encoded as the ABI tuple of its fields in declaration order:
//! `string` fields, byte fields as `uint8[]` arrays (a length word followed by
//! one word per byte), and the amount as an unsigned integer word. Decoding is
//! strict: bytes are accepted only when they are exactly the encoding of the
//! payload read from them, so truncated input and input with trailing bytes
//! are refused.
use vstd::prelude::*;

use solabi::decode::DecodeError;

use crate::bytes::bytes_eq;
use crate::error::BridglError;
use crate::state::{UnwrapParams, WrapParams};

verus! {

#[verifier::external_type_specification]
#[verifier::external_body]
pub struct ExDecodeError(DecodeError);

/// The ABI encoding that solabi produces for the fields of a wrap payload.
pub uninterp spec fn wrap_params_abi_encoding(
    p: (Seq<char>, Seq<char>, Seq<u8>, Seq<u8>, u128),
) -> Seq<u8>;

/// What solabi's ABI decoder reads from bytes as the fields of a wrap payload.
pub uninterp spec fn wrap_params_abi_decoding(b: Seq<u8>) -> Option<
    (Seq<char>, Seq<char>, Seq<u8>, Seq<u8>, u128),
>;

/// The ABI encoding that solabi produces for the fields of an unwrap payload.
pub uninterp spec fn unwrap_params_abi_encoding(p: (Seq<u8>, Seq<u8>, u128)) -> Seq<u8>;

/// What solabi's ABI decoder reads from bytes as the fields of an unwrap payload.
pub uninterp spec fn unwrap_params_abi_decoding(b: Seq<u8>) -> Option<(Seq<u8>, Seq<u8>, u128)>;

/// The big-endian value of the first `k` bytes of `s`.
pub open spec fn be_value(s: Seq<u8>, k: nat) -> nat
    decreases k,
{
    if k == 0 {
        0
    } else {
        be_value(s, (k - 1) as nat) * 256 + s[k - 1] as nat
    }
}

/// The 32-byte big-endian word of `b` that starts at `pos`.
pub open spec fn word_value(b: Seq<u8>, pos: int) -> nat {
    be_value(b.subrange(pos, pos + 32), 32)
}

/// The length word of the dynamic field whose offset stands in head word
/// `field` is no larger than the whole input, wherever both words are present.
pub open spec fn array_length_fits(b: Seq<u8>, field: int) -> bool {
    32 * field + 32 <= b.len() && word_value(b, 32 * field) + 32 <= b.len() ==> word_value(
        b,
        word_value(b, 32 * field) as int,
    ) <= b.len()
}

/// The length words of the two byte arrays of a wrap payload are bounded.
pub open spec fn wrap_lengths_fit(b: Seq<u8>) -> bool {
    array_length_fits(b, 2) && array_length_fits(b, 3)
}

/// The length words of the two byte arrays of an unwrap payload are bounded.
pub open spec fn unwrap_lengths_fit(b: Seq<u8>) -> bool {
    array_length_fits(b, 0) && array_length_fits(b, 1)
}

/// Relies on `solabi::encode::encode` for the tuple
/// `(&str, &str, &[u8], &[u8], u128)`: the result is the ABI encoding, which
/// `solabi::decode::decode` reads back as the same field values. Each array's
/// length word counts its elements, each of which takes a word of the
/// output; the head and the length words fix the total length, so no
/// encoding is a proper prefix of another.
#[verifier::external_body]
fn abi_encode_wrap(p: &WrapParams) -> (r: Vec<u8>)
    ensures
        r@ == wrap_params_abi_encoding(p@),
        wrap_params_abi_decoding(r@) == Some(p@),
        wrap_lengths_fit(r@),
        forall|q: (Seq<char>, Seq<char>, Seq<u8>, Seq<u8>, u128)|
            #![trigger wrap_params_abi_encoding(q)]
            r@.is_prefix_of(wrap_params_abi_encoding(q)) || wrap_params_abi_encoding(q).is_prefix_of(
                r@,
            ) ==> wrap_params_abi_encoding(q) == r@,
{
    solabi::encode::encode(
        &(p.name.as_str(), p.symbol.as_str(), p.underlying_token.as_slice(), p.to.as_slice(), p.amount),
    )
}

/// Relies on `solabi::decode::decode` for the tuple
/// `(String, String, Vec<u8>, Vec<u8>, u128)`: a deterministic function of the
/// bytes. Decoding a `Vec` reserves as many elements as its length word says,
/// so those words are bounded first.
#[verifier::external_body]
fn abi_decode_wrap(b: &[u8]) -> (r: Result<WrapParams, DecodeError>)
    requires
        wrap_lengths_fit(b@),
    ensures
        match r {
            Ok(p) => wrap_params_abi_decoding(b@) == Some(p@),
            Err(_) => wrap_params_abi_decoding(b@) is None,
        },
{
    match solabi::decode::decode::<(String, String, Vec<u8>, Vec<u8>, u128)>(b) {
        Ok((name, symbol, underlying_token, to, amount)) => Ok(
            WrapParams { name, symbol, underlying_token, to, amount },
        ),
        Err(e) => Err(e),
    }
}

/// Relies on `solabi::encode::encode` for the tuple `(&[u8], &[u8], u128)`:
/// the result is the ABI encoding, which `solabi::decode::decode` reads back
/// as the same field values. Each array's length word counts its elements,
/// each of which takes a word of the output; the head and the length words
/// fix the total length, so no encoding is a proper prefix of another.
#[verifier::external_body]
fn abi_encode_unwrap(p: &UnwrapParams) -> (r: Vec<u8>)
    ensures
        r@ == unwrap_params_abi_encoding(p@),
        unwrap_params_abi_decoding(r@) == Some(p@),
        unwrap_lengths_fit(r@),
        forall|q: (Seq<u8>, Seq<u8>, u128)|
            #![trigger unwrap_params_abi_encoding(q)]
            r@.is_prefix_of(unwrap_params_abi_encoding(q)) || unwrap_params_abi_encoding(q).is_prefix_of(
                r@,
            ) ==> unwrap_params_abi_encoding(q) == r@,
{
    solabi::encode::encode(&(p.underlying_token.as_slice(), p.to.as_slice(), p.amount))
}

/// Relies on `solabi::decode::decode` for the tuple `(Vec<u8>, Vec<u8>, u128)`:
/// a deterministic function of the bytes. Decoding a `Vec` reserves as many
/// elements as its length word says, so those words are bounded first.
#[verifier::external_body]
fn abi_decode_unwrap(b: &[u8]) -> (r: Result<UnwrapParams, DecodeError>)
    requires
        unwrap_lengths_fit(b@),
    ensures
        match r {
            Ok(p) => unwrap_params_abi_decoding(b@) == Some(p@),
            Err(_) => unwrap_params_abi_decoding(b@) is None,
        },
{
    match solabi::decode::decode::<(Vec<u8>, Vec<u8>, u128)>(b) {
        Ok((underlying_token, to, amount)) => Ok(UnwrapParams { underlying_token, to, amount }),
        Err(e) => Err(e),
    }
}

proof fn lemma_be_value_monotone(s: Seq<u8>, k: nat, j: nat)
    requires
        k <= j,
    ensures
        be_value(s, k) <= be_value(s, j),
    decreases j - k,
{
    if k < j {
        lemma_be_value_monotone(s, k, (j - 1) as nat);
    }
}

/// The word of `b` at `pos`, if its value is at most `bound`.
fn read_word_bounded(b: &[u8], pos: usize, bound: usize) -> (r: Option<usize>)
    requires
        pos + 32 <= b@.len(),
    ensures
        match r {
            Some(v) => v == word_value(b@, pos as int) && v <= bound,
            None => word_value(b@, pos as int) > bound,
        },
{
    let ghost w = b@.subrange(pos as int, pos + 32);
    let n = b.len();
    let mut acc: u128 = 0;
    let mut i: usize = 0;
    while i < 32
        invariant
            i <= 32,
            pos + 32 <= b@.len(),
            n == b@.len(),
            w == b@.subrange(pos as int, pos + 32),
            acc == be_value(w, i as nat),
            acc <= bound,
        decreases 32 - i,
    {
        assert(w[i as int] == b@[pos + i]);
        let next: u128 = acc * 256 + b[pos + i] as u128;
        assert(next == be_value(w, (i + 1) as nat));
        if next > bound as u128 {
            proof {
                lemma_be_value_monotone(w, (i + 1) as nat, 32);
            }
            return None;
        }
        acc = next;
        i += 1;
    }
    Some(acc as usize)
}

/// Whether the length word of the dynamic field at head word `field` is bounded.
fn check_array_length(b: &[u8], field: usize) -> (r: bool)
    requires
        field < 8,
    ensures
        r == array_length_fits(b@, field as int),
{
    let head = 32 * field;
    if b.len() < 32 || head > b.len() - 32 {
        return true;
    }
    match read_word_bounded(b, head, b.len() - 32) {
        None => true,
        Some(off) => match read_word_bounded(b, off, b.len()) {
            Some(_) => true,
            None => false,
        },
    }
}

/// The wrap payload that `b` encodes exactly, if any.
pub open spec fn decode_wrap_spec(b: Seq<u8>) -> Option<(Seq<char>, Seq<char>, Seq<u8>, Seq<u8>, u128)> {
    if !wrap_lengths_fit(b) {
        None
    } else {
        match wrap_params_abi_decoding(b) {
            Some(p) => if wrap_params_abi_encoding(p) == b {
                Some(p)
            } else {
                None
            },
            None => None,
        }
    }
}

/// The unwrap payload that `b` encodes exactly, if any.
pub open spec fn decode_unwrap_spec(b: Seq<u8>) -> Option<(Seq<u8>, Seq<u8>, u128)> {
    if !unwrap_lengths_fit(b) {
        None
    } else {
        match unwrap_params_abi_decoding(b) {
            Some(p) => if unwrap_params_abi_encoding(p) == b {
                Some(p)
            } else {
                None
            },
            None => None,
        }
    }
}

impl WrapParams {
    /// The wire encoding of this payload. Decoding it gives this payload back;
    /// decoding it cut short, or followed by more bytes, fails.
    pub fn encode(&self) -> (r: Vec<u8>)
        ensures
            r@ == wrap_params_abi_encoding(self@),
            decode_wrap_spec(r@) == Some(self@),
            forall|extra: Seq<u8>|
                extra.len() > 0 ==> #[trigger] decode_wrap_spec(r@ + extra) is None,
            forall|k: int| 0 <= k < r@.len() ==> #[trigger] decode_wrap_spec(r@.subrange(0, k)) is None,
    {
        let r = abi_encode_wrap(self);
        assert forall|extra: Seq<u8>| extra.len() > 0 implies #[trigger] decode_wrap_spec(
            r@ + extra,
        ) is None by {
            if let Some(q) = decode_wrap_spec(r@ + extra) {
                assert((r@ + extra).subrange(0, r@.len() as int) =~= r@);
                assert(r@.is_prefix_of(wrap_params_abi_encoding(q)));
            }
        }
        assert forall|k: int| 0 <= k < r@.len() implies #[trigger] decode_wrap_spec(
            r@.subrange(0, k),
        ) is None by {
            if let Some(q) = decode_wrap_spec(r@.subrange(0, k)) {
                assert(r@.subrange(0, k).subrange(0, k) =~= r@.subrange(0, k));
                assert(wrap_params_abi_encoding(q).is_prefix_of(r@));
            }
        }
        r
    }

    /// Reads a payload from bytes that encode it exactly.
    pub fn decode(b: &[u8]) -> (r: Result<WrapParams, BridglError>)
        ensures
            match r {
                Ok(p) => decode_wrap_spec(b@) == Some(p@),
                Err(e) => decode_wrap_spec(b@) is None && e == BridglError::InvalidMessageData,
            },
    {
        if !check_array_length(b, 2) || !check_array_length(b, 3) {
            return Err(BridglError::InvalidMessageData);
        }
        match abi_decode_wrap(b) {
            Ok(p) => {
                let again = p.encode();
                if bytes_eq(again.as_slice(), b) {
                    Ok(p)
                } else {
                    Err(BridglError::InvalidMessageData)
                }
            },
            Err(_) => Err(BridglError::InvalidMessageData),
        }
    }
}

impl UnwrapParams {
    /// The wire encoding of this payload. Decoding it gives this payload back;
    /// decoding it cut short, or followed by more bytes, fails.
    pub fn encode(&self) -> (r: Vec<u8>)
        ensures
            r@ == unwrap_params_abi_encoding(self@),
            decode_unwrap_spec(r@) == Some(self@),
            forall|extra: Seq<u8>|
                extra.len() > 0 ==> #[trigger] decode_unwrap_spec(r@ + extra) is None,
            forall|k: int|
                0 <= k < r@.len() ==> #[trigger] decode_unwrap_spec(r@.subrange(0, k)) is None,
    {
        let r = abi_encode_unwrap(self);
        assert forall|extra: Seq<u8>| extra.len() > 0 implies #[trigger] decode_unwrap_spec(
            r@ + extra,
        ) is None by {
            if let Some(q) = decode_unwrap_spec(r@ + extra) {
                assert((r@ + extra).subrange(0, r@.len() as int) =~= r@);
                assert(r@.is_prefix_of(unwrap_params_abi_encoding(q)));
            }
        }
        assert forall|k: int| 0 <= k < r@.len() implies #[trigger] decode_unwrap_spec(
            r@.subrange(0, k),
        ) is None by {
            if let Some(q) = decode_unwrap_spec(r@.subrange(0, k)) {
                assert(r@.subrange(0, k).subrange(0, k) =~= r@.subrange(0, k));
                assert(unwrap_params_abi_encoding(q).is_prefix_of(r@));
            }
        }
        r
    }

    /// Reads a payload from bytes that encode it exactly.
    pub fn decode(b: &[u8]) -> (r: Result<UnwrapParams, BridglError>)
        ensures
            match r {
                Ok(p) => decode_unwrap_spec(b@) == Some(p@),
                Err(e) => decode_unwrap_spec(b@) is None && e == BridglError::InvalidMessageData,
            },
    {
        if !check_array_length(b, 0) || !check_array_length(b, 1) {
            return Err(BridglError::InvalidMessageData);
        }
        match abi_decode_unwrap(b) {
            Ok(p) => {
                let again = p.encode();
                if bytes_eq(again.as_slice(), b) {
                    Ok(p)
                } else {
                    Err(BridglError::InvalidMessageData)
                }
            },
            Err(_) => Err(BridglError::InvalidMessageData),
        }
    }
}

/// A decoded wrap payload is always the one whose encoding is exactly the input.
pub proof fn lemma_wrap_decode_exact(b: Seq<u8>)
    ensures
        decode_wrap_spec(b) matches Some(p) ==> wrap_params_abi_encoding(p) == b,
{
}

/// A decoded unwrap payload is always the one whose encoding is exactly the input.
pub proof fn lemma_unwrap_decode_exact(b: Seq<u8>)
    ensures
        decode_unwrap_spec(b) matches Some(p) ==> unwrap_params_abi_encoding(p) == b,
{
}

} // verus!
