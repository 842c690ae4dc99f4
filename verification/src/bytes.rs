//! Small verified utilities over byte strings.
//!
//! Environment values, command text and diagnostic lines are all plain byte
//! strings here, so the rest of the library needs exact equality and
//! concatenation over them.

use vstd::prelude::*;
use vstd::string::is_ascii;
use vstd::string::is_ascii_spec_bytes;

verus! {

/// The bytes of a sequence of ASCII characters, one byte per character.
pub open spec fn ascii_seq(s: Seq<char>) -> Seq<u8> {
    Seq::new(s.len(), |i: int| s[i] as u8)
}

/// The bytes of an ASCII string, as a fresh vector.
pub fn lit_bytes(s: &str) -> (r: Vec<u8>)
    requires
        is_ascii(s),
    ensures
        r@ == ascii_seq(s@),
{
    proof {
        broadcast use is_ascii_spec_bytes;

    }
    let r = vstd::slice::slice_to_vec(s.as_bytes());
    proof {
        assert(r@ =~= ascii_seq(s@));
    }
    r
}

/// Byte-for-byte equality of two byte strings.
pub fn bytes_eq(a: &[u8], b: &[u8]) -> (r: bool)
    ensures
        r <==> a@ == b@,
{
    if a.len() != b.len() {
        return false;
    }
    let mut i: usize = 0;
    while i < a.len()
        invariant
            0 <= i <= a@.len(),
            a@.len() == b@.len(),
            forall|j: int| 0 <= j < i ==> a@[j] == b@[j],
        decreases a@.len() - i,
    {
        if a[i] != b[i] {
            return false;
        }
        i = i + 1;
    }
    proof {
        assert(a@ =~= b@);
    }
    true
}

/// The concatenation of two byte strings, as a fresh vector.
pub fn concat_bytes(a: &[u8], b: &[u8]) -> (r: Vec<u8>)
    ensures
        r@ == a@ + b@,
{
    let mut r = vstd::slice::slice_to_vec(a);
    r.extend_from_slice(b);
    proof {
        assert(r@ =~= a@ + b@);
    }
    r
}

} // verus!
