use vstd::prelude::*;
use hmac::{Hmac, KeyInit, Mac};
use sha2::Sha256;

verus! {

/// Why a supplied authentication tag was rejected.
#[derive(Clone, Copy, PartialEq, Eq, Structural, Debug)]
pub enum AuthError {
    /// The tag is not a well-formed hex string.
    MalformedSignature,
    /// The tag is well formed but differs from the tag computed over the
    /// payload.
    SignatureMismatch,
}

/// The value of one hex digit, and -1 for every other character.
pub open spec fn spec_hex_digit_val(c: char) -> int {
    if '0' <= c && c <= '9' {
        c as int - '0' as int
    } else if 'a' <= c && c <= 'f' {
        10 + c as int - 'a' as int
    } else if 'A' <= c && c <= 'F' {
        10 + c as int - 'A' as int
    } else {
        -1
    }
}

pub open spec fn spec_is_hex_digit(c: char) -> bool {
    spec_hex_digit_val(c) >= 0
}

/// A well-formed tag: an even number of characters, all hex digits.
pub open spec fn spec_valid_hex(s: Seq<char>) -> bool {
    s.len() % 2 == 0 && (forall|i: int| 0 <= i < s.len() ==> spec_is_hex_digit(s[i]))
}

/// The bytes a well-formed hex string denotes, high nibble first.
pub open spec fn spec_hex_bytes(s: Seq<char>) -> Seq<u8> {
    Seq::new(
        s.len() / 2,
        |i: int| (16 * spec_hex_digit_val(s[2 * i]) + spec_hex_digit_val(s[2 * i + 1])) as u8,
    )
}

/// The keyed tag that HMAC-SHA-256 computes over a message: a function of
/// the key and the message alone.
pub uninterp spec fn hmac_sha256_of(key: Seq<u8>, msg: Seq<u8>) -> Seq<u8>;

/// Relies on `Hmac<Sha256>` of the hmac and sha2 crates: the tag depends on
/// the key and the message alone and is 32 bytes long (the output size of
/// SHA-256); `new_from_slice` accepts keys of any length for HMAC and never
/// fails.
#[verifier::external_body]
fn hmac_sha256(key: &[u8], msg: &[u8]) -> (r: Vec<u8>)
    ensures
        r@ == hmac_sha256_of(key@, msg@),
        r@.len() == 32,
{
    let mut mac = <Hmac<Sha256> as KeyInit>::new_from_slice(key).expect(
        "HMAC accepts keys of any length",
    );
    Mac::update(&mut mac, msg);
    Mac::finalize(mac).into_bytes().to_vec()
}

/// Relies on `hex::decode`: it succeeds exactly on strings with an even
/// number of characters that are all hex digits, and then returns the
/// denoted bytes, high nibble first; an odd length or a foreign character
/// gives an error.
#[verifier::external_body]
fn hex_decode(s: &str) -> (r: Option<Vec<u8>>)
    ensures
        r is Some <==> spec_valid_hex(s@),
        r matches Some(v) ==> v@ == spec_hex_bytes(s@),
{
    match hex::decode(s) {
        Ok(v) => Some(v),
        Err(_) => None,
    }
}

/// Full-length equality of two byte strings.
fn bytes_equal(a: &[u8], b: &[u8]) -> (r: bool)
    ensures
        r == (a@ == b@),
{
    if a.len() != b.len() {
        return false;
    }
    let mut i: usize = 0;
    while i < a.len()
        invariant
            i <= a@.len(),
            a@.len() == b@.len(),
            forall|j: int| 0 <= j < i ==> a@[j] == b@[j],
        decreases a@.len() - i,
    {
        if a[i] != b[i] {
            return false;
        }
        i += 1;
    }
    proof {
        assert(a@ =~= b@);
    }
    true
}

/// What checking a tag returns, for every input: a malformed tag is turned
/// away before anything else; a well-formed one must denote exactly the tag
/// computed over the message.
pub open spec fn spec_verify(secret: Seq<u8>, msg: Seq<u8>, tag: Seq<char>) -> Result<
    (),
    AuthError,
> {
    if !spec_valid_hex(tag) {
        Err(AuthError::MalformedSignature)
    } else if spec_hex_bytes(tag) == hmac_sha256_of(secret, msg) {
        Ok(())
    } else {
        Err(AuthError::SignatureMismatch)
    }
}

/// Checks a client-supplied hex tag against the tag computed over `msg`
/// with `secret`. Pure: no effect on any state.
pub fn verify_tag(secret: &[u8], msg: &[u8], tag: &str) -> (r: Result<(), AuthError>)
    ensures
        r == spec_verify(secret@, msg@, tag@),
{
    let expected = hmac_sha256(secret, msg);
    match hex_decode(tag) {
        None => Err(AuthError::MalformedSignature),
        Some(got) => {
            if bytes_equal(expected.as_slice(), got.as_slice()) {
                Ok(())
            } else {
                Err(AuthError::SignatureMismatch)
            }
        },
    }
}

/// A well-formed tag that denotes exactly the tag computed over the message
/// is accepted, whatever the payload.
pub proof fn lemma_verify_accepts_correct_tag(secret: Seq<u8>, msg: Seq<u8>, tag: Seq<char>)
    requires
        spec_valid_hex(tag),
        spec_hex_bytes(tag) == hmac_sha256_of(secret, msg),
    ensures
        spec_verify(secret, msg, tag) == Ok::<(), AuthError>(()),
{
}

/// A well-formed tag that denotes anything else — one flipped bit included —
/// is rejected as a mismatch, never as malformed.
pub proof fn lemma_verify_rejects_wrong_tag(secret: Seq<u8>, msg: Seq<u8>, tag: Seq<char>)
    requires
        spec_valid_hex(tag),
        spec_hex_bytes(tag) != hmac_sha256_of(secret, msg),
    ensures
        spec_verify(secret, msg, tag) == Err::<(), AuthError>(AuthError::SignatureMismatch),
{
}

/// A tag that is not well-formed hex is rejected as malformed, never as a
/// mismatch, whatever the payload and the secret.
pub proof fn lemma_verify_rejects_malformed_tag(secret: Seq<u8>, msg: Seq<u8>, tag: Seq<char>)
    requires
        !spec_valid_hex(tag),
    ensures
        spec_verify(secret, msg, tag) == Err::<(), AuthError>(AuthError::MalformedSignature),
{
}

} // verus!
