//! The computational pieces of the reference script extension: the string
//! transforms its script functions expose, and its reference resource
//! payload. The script-stack plumbing around them belongs to the unverified
//! host boundary.

use vstd::prelude::*;
use vstd::string::StrSliceExecFns;
use vstd::string::StringSliceAdditionalSpecFns;

verus! {

/// The reference resource payload: four opaque bytes.
pub struct Something {
    /// The payload bytes.
    pub field: [u8; 4],
}

/// What the standard base64 alphabet, with padding, makes of a byte
/// sequence.
pub uninterp spec fn b64_of(bytes: Seq<u8>) -> Seq<char>;

/// Relies on the base64 crate's standard-alphabet engine: the encoding is a
/// pure function of the input bytes, and emits four characters for every
/// three input bytes, padded.
#[verifier::external_body]
fn base64_standard(bytes: &[u8]) -> (r: String)
    ensures
        r@ == b64_of(bytes@),
        r@.len() == 4 * ((bytes@.len() + 2) / 3),
{
    base64::Engine::encode(&base64::engine::general_purpose::STANDARD, bytes)
}

/// Encodes a string's bytes in standard base64.
pub fn b64_encode(plaintext: &str) -> (r: String)
    ensures
        r@ == b64_of(plaintext.spec_bytes()),
        r@.len() == 4 * ((plaintext.spec_bytes().len() + 2) / 3),
{
    base64_standard(plaintext.as_bytes())
}

/// Relies on `String::push`: appends exactly the one character.
#[verifier::external_body]
fn push_char(s: &mut String, c: char)
    ensures
        final(s)@ == old(s)@.push(c),
{
    s.push(c);
}

/// Reverses the characters of a string.
pub fn reverse(s: &str) -> (r: String)
    ensures
        r@.len() == s@.len(),
        forall|i: int| 0 <= i < s@.len() ==> r@[i] == s@[s@.len() - 1 - i],
{
    let n = s.unicode_len();
    let mut out = String::new();
    let mut i: usize = 0;
    while i < n
        invariant
            n == s@.len(),
            0 <= i <= n,
            out@.len() == i,
            forall|j: int| 0 <= j < i ==> out@[j] == s@[n - 1 - j],
        decreases n - i,
    {
        let c = s.get_char(n - 1 - i);
        push_char(&mut out, c);
        i += 1;
    }
    out
}

} // verus!
