//! Well-formed UTF-8, specified byte by byte, with a verified validator.
//!
//! The pipeline must reject captured output that is not valid text before it
//! tries to read a record out of it. The specification below follows the
//! Unicode byte-sequence table: one-byte sequences up to 0x7F, two-byte
//! sequences led by 0xC2..=0xDF, three- and four-byte sequences with their
//! restricted second bytes (no overlong forms, no surrogates, nothing above
//! U+10FFFF).

use vstd::prelude::*;

verus! {

/// A continuation byte of a multi-byte sequence.
pub open spec fn is_cont(b: u8) -> bool {
    0x80 <= b && b <= 0xBF
}

/// The admissible second byte of a three-byte sequence led by `b0`.
pub open spec fn second_of_three_ok(b0: u8, b1: u8) -> bool {
    if b0 == 0xE0 {
        0xA0 <= b1 && b1 <= 0xBF
    } else if b0 == 0xED {
        0x80 <= b1 && b1 <= 0x9F
    } else {
        is_cont(b1)
    }
}

/// The admissible second byte of a four-byte sequence led by `b0`.
pub open spec fn second_of_four_ok(b0: u8, b1: u8) -> bool {
    if b0 == 0xF0 {
        0x90 <= b1 && b1 <= 0xBF
    } else if b0 == 0xF4 {
        0x80 <= b1 && b1 <= 0x8F
    } else {
        is_cont(b1)
    }
}

/// The bytes of `s` from position `i` on are a well-formed UTF-8 suffix.
pub open spec fn utf8_from(s: Seq<u8>, i: int) -> bool
    decreases s.len() - i,
{
    if i >= s.len() {
        true
    } else {
        let b0 = s[i];
        if b0 <= 0x7F {
            utf8_from(s, i + 1)
        } else if 0xC2 <= b0 && b0 <= 0xDF {
            &&& i + 2 <= s.len()
            &&& is_cont(s[i + 1])
            &&& utf8_from(s, i + 2)
        } else if 0xE0 <= b0 && b0 <= 0xEF {
            &&& i + 3 <= s.len()
            &&& second_of_three_ok(b0, s[i + 1])
            &&& is_cont(s[i + 2])
            &&& utf8_from(s, i + 3)
        } else if 0xF0 <= b0 && b0 <= 0xF4 {
            &&& i + 4 <= s.len()
            &&& second_of_four_ok(b0, s[i + 1])
            &&& is_cont(s[i + 2])
            &&& is_cont(s[i + 3])
            &&& utf8_from(s, i + 4)
        } else {
            false
        }
    }
}

/// The whole byte sequence is well-formed UTF-8.
pub open spec fn is_utf8(s: Seq<u8>) -> bool {
    utf8_from(s, 0)
}

fn cont_byte(b: u8) -> (r: bool)
    ensures
        r == is_cont(b),
{
    0x80 <= b && b <= 0xBF
}

/// Decides whether `bytes` is well-formed UTF-8.
pub fn validate_utf8(bytes: &Vec<u8>) -> (r: bool)
    ensures
        r == is_utf8(bytes@),
{
    let n = bytes.len();
    let mut i: usize = 0;
    loop
        invariant
            i <= n,
            n == bytes@.len(),
            is_utf8(bytes@) == utf8_from(bytes@, i as int),
        decreases n - i,
    {
        if i >= n {
            return true;
        }
        let b0 = bytes[i];
        if b0 <= 0x7F {
            i = i + 1;
        } else if 0xC2 <= b0 && b0 <= 0xDF {
            if n - i >= 2 && cont_byte(bytes[i + 1]) {
                i = i + 2;
            } else {
                return false;
            }
        } else if 0xE0 <= b0 && b0 <= 0xEF {
            let second_ok = if n - i >= 2 {
                let b1 = bytes[i + 1];
                if b0 == 0xE0 {
                    0xA0 <= b1 && b1 <= 0xBF
                } else if b0 == 0xED {
                    0x80 <= b1 && b1 <= 0x9F
                } else {
                    cont_byte(b1)
                }
            } else {
                false
            };
            if n - i >= 3 && second_ok && cont_byte(bytes[i + 2]) {
                i = i + 3;
            } else {
                return false;
            }
        } else if 0xF0 <= b0 && b0 <= 0xF4 {
            let second_ok = if n - i >= 2 {
                let b1 = bytes[i + 1];
                if b0 == 0xF0 {
                    0x90 <= b1 && b1 <= 0xBF
                } else if b0 == 0xF4 {
                    0x80 <= b1 && b1 <= 0x8F
                } else {
                    cont_byte(b1)
                }
            } else {
                false
            };
            if n - i >= 4 && second_ok && cont_byte(bytes[i + 2]) && cont_byte(bytes[i + 3]) {
                i = i + 4;
            } else {
                return false;
            }
        } else {
            return false;
        }
    }
}

} // verus!
