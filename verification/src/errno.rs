//! Operating-system error codes.
//!
//! `Errno` wraps the raw integer error code that the operating system keeps
//! per thread. The zero code means success. A human-readable description is
//! obtained from the platform's own message table; the library only trims
//! the renderer's trailing ` (os error N)` annotation so the canonical
//! message text alone remains.

use vstd::prelude::*;

use crate::bytes::bytes_eq;

verus! {

/// An error which may occur whilst interacting with the operating system.
#[derive(Clone, Copy, Debug, PartialEq, Eq, Structural)]
pub struct Errno {
    /// The raw error code, as the operating system reports it.
    pub code: i32,
}

impl Errno {
    /// Indicates that no error occurred: the zero code.
    pub fn success() -> (r: Errno)
        ensures
            r.is_success(),
    {
        Errno { code: 0 }
    }

    /// Whether this code is the success value.
    pub open spec fn is_success(self) -> bool {
        self.code == 0
    }

    /// Relies on `std::io::Error::from_raw_os_error` and its `Display`
    /// rendering for the platform's message text. The text may depend on
    /// the locale, so nothing is claimed about its content.
    #[verifier::external_body]
    fn os_error_message(code: i32) -> (r: Vec<u8>) {
        format!("{}", std::io::Error::from_raw_os_error(code)).into_bytes()
    }

    /// Returns a description of the error: the platform's message text for
    /// this code. The text itself comes from the operating system and may
    /// depend on the locale, so no contract pins it down; whatever bytes
    /// the platform hands back are passed through
    /// [`strip_os_error_annotation`], whose contract is exact.
    pub fn description(self) -> Vec<u8> {
        let raw = Self::os_error_message(self.code);
        strip_os_error_annotation(raw, self.code)
    }
}

/// The decimal digits of `n`, most significant first.
pub open spec fn decimal_digits(n: nat) -> Seq<u8>
    decreases n,
{
    if n < 10 {
        seq![(48 + n) as u8]
    } else {
        decimal_digits(n / 10).push((48 + n % 10) as u8)
    }
}

/// The decimal rendering of a possibly negative code: a leading minus sign
/// for negative values, then the digits of the magnitude.
pub open spec fn code_digits(c: int) -> Seq<u8> {
    if c < 0 {
        seq![45u8] + decimal_digits((-c) as nat)
    } else {
        decimal_digits(c as nat)
    }
}

/// Renders an unsigned value in decimal.
fn render_u32(n: u32) -> (r: Vec<u8>)
    ensures
        r@ == decimal_digits(n as nat),
    decreases n,
{
    if n < 10 {
        let mut r: Vec<u8> = Vec::new();
        r.push(48 + n as u8);
        r
    } else {
        let mut r = render_u32(n / 10);
        r.push(48 + (n % 10) as u8);
        r
    }
}

/// Renders a raw error code in decimal, with a minus sign when negative.
fn render_code(code: i32) -> (r: Vec<u8>)
    ensures
        r@ == code_digits(code as int),
{
    if code < 0 {
        let magnitude: u32 = (-(code as i64)) as u32;
        let mut r: Vec<u8> = Vec::new();
        r.push(45);
        let digits = render_u32(magnitude);
        let mut i: usize = 0;
        while i < digits.len()
            invariant
                0 <= i <= digits@.len(),
                digits@ == decimal_digits((-(code as int)) as nat),
                r@ == seq![45u8] + digits@.take(i as int),
            decreases digits@.len() - i,
        {
            r.push(digits[i]);
            i = i + 1;
            proof {
                assert(r@ =~= seq![45u8] + digits@.take(i as int));
            }
        }
        proof {
            assert(digits@.take(digits@.len() as int) =~= digits@);
        }
        r
    } else {
        render_u32(code as u32)
    }
}

/// The annotation that the platform's renderer appends to a message for the
/// raw code `c`: a space, the words `(os error`, the code in decimal and a
/// closing parenthesis.
pub open spec fn os_error_annotation(c: int) -> Seq<u8> {
    seq![32u8, 40u8, 111u8, 115u8, 32u8, 101u8, 114u8, 114u8, 111u8, 114u8, 32u8] + code_digits(c)
        + seq![41u8]
}

/// `raw` with the annotation for `c` removed from its end, if it ends with
/// that annotation; `raw` unchanged otherwise.
pub open spec fn strip_annotation(raw: Seq<u8>, c: int) -> Seq<u8> {
    let suffix = os_error_annotation(c);
    if suffix.len() <= raw.len() && raw.subrange(raw.len() - suffix.len(), raw.len() as int)
        == suffix {
        raw.take(raw.len() - suffix.len())
    } else {
        raw
    }
}

/// Builds the annotation bytes for `code`.
fn os_error_annotation_bytes(code: i32) -> (r: Vec<u8>)
    ensures
        r@ == os_error_annotation(code as int),
{
    let mut r: Vec<u8> = Vec::new();
    r.push(32);
    r.push(40);
    r.push(111);
    r.push(115);
    r.push(32);
    r.push(101);
    r.push(114);
    r.push(114);
    r.push(111);
    r.push(114);
    r.push(32);
    let mut digits = render_code(code);
    r.append(&mut digits);
    r.push(41);
    proof {
        assert(r@ =~= os_error_annotation(code as int));
    }
    r
}

/// Removes the renderer's ` (os error N)` annotation from the end of `raw`,
/// when it is there; returns `raw` unchanged otherwise.
pub fn strip_os_error_annotation(raw: Vec<u8>, code: i32) -> (r: Vec<u8>)
    ensures
        r@ == strip_annotation(raw@, code as int),
{
    let ghost raw0 = raw@;
    let suffix = os_error_annotation_bytes(code);
    if suffix.len() <= raw.len() {
        let start: usize = raw.len() - suffix.len();
        let end: usize = raw.len();
        let tail: &[u8] = &raw.as_slice()[start..end];
        if bytes_eq(tail, suffix.as_slice()) {
            let mut r = raw;
            r.truncate(start);
            proof {
                assert(r@ =~= strip_annotation(raw0, code as int));
            }
            return r;
        }
    }
    raw
}

} // verus!
