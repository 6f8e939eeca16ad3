//! UTF-8 well-formedness of a byte sequence, as the encoding's standard
//! table defines it: the status-line prefix of a proxy's reply must decode
//! as text before its status field is read.

use vstd::prelude::*;

verus! {

/// A continuation byte of a multi-byte sequence.
pub open spec fn is_cont_byte(b: u8) -> bool {
    0x80 <= b <= 0xBF
}

/// Whether the bytes of `s` from position `i` on are well-formed UTF-8.
/// One disjunct per row of the encoding's table of valid sequences:
/// ASCII, two-byte leads `C2..DF`, the three- and four-byte leads with
/// their restricted second bytes (`E0`, `ED`, `F0`, `F4`), and the general
/// three- and four-byte leads. Everything else — stray continuation
/// bytes, overlong leads `C0`/`C1`, leads above `F4` — is ill-formed.
pub open spec fn utf8_valid_from(s: Seq<u8>, i: int) -> bool
    recommends
        0 <= i <= s.len(),
    decreases s.len() - i,
{
    if i < 0 || i >= s.len() {
        true
    } else {
        let b0 = s[i];
        if b0 < 0x80 {
            utf8_valid_from(s, i + 1)
        } else if 0xC2 <= b0 && b0 <= 0xDF {
            &&& i + 2 <= s.len()
            &&& is_cont_byte(s[i + 1])
            &&& utf8_valid_from(s, i + 2)
        } else if b0 == 0xE0 {
            &&& i + 3 <= s.len()
            &&& 0xA0 <= s[i + 1] <= 0xBF
            &&& is_cont_byte(s[i + 2])
            &&& utf8_valid_from(s, i + 3)
        } else if (0xE1 <= b0 && b0 <= 0xEC) || b0 == 0xEE || b0 == 0xEF {
            &&& i + 3 <= s.len()
            &&& is_cont_byte(s[i + 1])
            &&& is_cont_byte(s[i + 2])
            &&& utf8_valid_from(s, i + 3)
        } else if b0 == 0xED {
            &&& i + 3 <= s.len()
            &&& 0x80 <= s[i + 1] <= 0x9F
            &&& is_cont_byte(s[i + 2])
            &&& utf8_valid_from(s, i + 3)
        } else if b0 == 0xF0 {
            &&& i + 4 <= s.len()
            &&& 0x90 <= s[i + 1] <= 0xBF
            &&& is_cont_byte(s[i + 2])
            &&& is_cont_byte(s[i + 3])
            &&& utf8_valid_from(s, i + 4)
        } else if 0xF1 <= b0 && b0 <= 0xF3 {
            &&& i + 4 <= s.len()
            &&& is_cont_byte(s[i + 1])
            &&& is_cont_byte(s[i + 2])
            &&& is_cont_byte(s[i + 3])
            &&& utf8_valid_from(s, i + 4)
        } else if b0 == 0xF4 {
            &&& i + 4 <= s.len()
            &&& 0x80 <= s[i + 1] <= 0x8F
            &&& is_cont_byte(s[i + 2])
            &&& is_cont_byte(s[i + 3])
            &&& utf8_valid_from(s, i + 4)
        } else {
            false
        }
    }
}

/// Whether `s` as a whole is well-formed UTF-8 text.
pub open spec fn is_utf8(s: Seq<u8>) -> bool {
    utf8_valid_from(s, 0)
}

fn cont_byte(b: u8) -> (r: bool)
    ensures
        r == is_cont_byte(b),
{
    0x80 <= b && b <= 0xBF
}

/// Decides whether `bytes` is well-formed UTF-8 text.
pub fn utf8_valid(bytes: &[u8]) -> (r: bool)
    ensures
        r == is_utf8(bytes@),
{
    let n = bytes.len();
    let mut i: usize = 0;
    while i < n
        invariant
            i <= n,
            n == bytes@.len(),
            is_utf8(bytes@) == utf8_valid_from(bytes@, i as int),
        decreases n - i,
    {
        let b0 = bytes[i];
        let rem = n - i;
        if b0 < 0x80 {
            i = i + 1;
        } else if 0xC2 <= b0 && b0 <= 0xDF {
            if rem >= 2 && cont_byte(bytes[i + 1]) {
                i = i + 2;
            } else {
                return false;
            }
        } else if b0 == 0xE0 {
            if rem >= 3 && 0xA0 <= bytes[i + 1] && bytes[i + 1] <= 0xBF && cont_byte(
                bytes[i + 2],
            ) {
                i = i + 3;
            } else {
                return false;
            }
        } else if (0xE1 <= b0 && b0 <= 0xEC) || b0 == 0xEE || b0 == 0xEF {
            if rem >= 3 && cont_byte(bytes[i + 1]) && cont_byte(bytes[i + 2]) {
                i = i + 3;
            } else {
                return false;
            }
        } else if b0 == 0xED {
            if rem >= 3 && 0x80 <= bytes[i + 1] && bytes[i + 1] <= 0x9F && cont_byte(
                bytes[i + 2],
            ) {
                i = i + 3;
            } else {
                return false;
            }
        } else if b0 == 0xF0 {
            if rem >= 4 && 0x90 <= bytes[i + 1] && bytes[i + 1] <= 0xBF && cont_byte(bytes[i + 2])
                && cont_byte(bytes[i + 3]) {
                i = i + 4;
            } else {
                return false;
            }
        } else if 0xF1 <= b0 && b0 <= 0xF3 {
            if rem >= 4 && cont_byte(bytes[i + 1]) && cont_byte(bytes[i + 2]) && cont_byte(
                bytes[i + 3],
            ) {
                i = i + 4;
            } else {
                return false;
            }
        } else if b0 == 0xF4 {
            if rem >= 4 && 0x80 <= bytes[i + 1] && bytes[i + 1] <= 0x8F && cont_byte(bytes[i + 2])
                && cont_byte(bytes[i + 3]) {
                i = i + 4;
            } else {
                return false;
            }
        } else {
            return false;
        }
    }
    true
}

} // verus!
