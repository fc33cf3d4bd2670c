//! The result schema and its verified parser.
//!
//! The external computation must print one JSON object with exactly the two
//! required numeric fields, `accuracy` and `loss`, in either order:
//! unsigned decimal integers that fit in 64 bits, no leading zeros, with
//! JSON whitespace allowed around every token and nothing after the closing
//! brace. The grammar is written out as spec functions over the byte
//! sequence; the executable parser is proved to return exactly what the
//! grammar admits.

use vstd::prelude::*;
use crate::types::MLResponse;

verus! {

/// JSON whitespace: space, tab, line feed, carriage return.
pub open spec fn is_ws(b: u8) -> bool {
    b == 0x20 || b == 0x09 || b == 0x0A || b == 0x0D
}

/// An ASCII decimal digit.
pub open spec fn is_digit(b: u8) -> bool {
    0x30 <= b && b <= 0x39
}

/// The first position at or after `i` that does not hold whitespace.
pub open spec fn skip_ws(s: Seq<u8>, i: int) -> int
    decreases s.len() - i,
{
    if 0 <= i && i < s.len() && is_ws(s[i]) {
        skip_ws(s, i + 1)
    } else {
        i
    }
}

/// The first position at or after `i` that does not hold a digit.
pub open spec fn digit_end(s: Seq<u8>, i: int) -> int
    decreases s.len() - i,
{
    if 0 <= i && i < s.len() && is_digit(s[i]) {
        digit_end(s, i + 1)
    } else {
        i
    }
}

/// The value of the decimal digits `s[i..j]`, most significant first.
pub open spec fn digits_value(s: Seq<u8>, i: int, j: int) -> int
    decreases j - i,
{
    if i >= j {
        0
    } else {
        digits_value(s, i, j - 1) * 10 + s[j - 1] - 0x30
    }
}

/// A number at `i`: a nonempty digit run, no leading zero, value within
/// `u64`. Yields the value and the position after the last digit.
pub open spec fn spec_number(s: Seq<u8>, i: int) -> Option<(u64, int)> {
    let j: int = digit_end(s, i);
    if j == i {
        None
    } else if s[i] == 0x30 && j > i + 1 {
        None
    } else if digits_value(s, i, j) > u64::MAX {
        None
    } else {
        Some((digits_value(s, i, j) as u64, j))
    }
}

/// The quoted key `"accuracy"` stands at position `i`.
pub open spec fn accuracy_key_at(s: Seq<u8>, i: int) -> bool {
    &&& 0 <= i
    &&& i + 10 <= s.len()
    &&& s[i] == 0x22
    &&& s[i + 1] == 0x61
    &&& s[i + 2] == 0x63
    &&& s[i + 3] == 0x63
    &&& s[i + 4] == 0x75
    &&& s[i + 5] == 0x72
    &&& s[i + 6] == 0x61
    &&& s[i + 7] == 0x63
    &&& s[i + 8] == 0x79
    &&& s[i + 9] == 0x22
}

/// The quoted key `"loss"` stands at position `i`.
pub open spec fn loss_key_at(s: Seq<u8>, i: int) -> bool {
    &&& 0 <= i
    &&& i + 6 <= s.len()
    &&& s[i] == 0x22
    &&& s[i + 1] == 0x6C
    &&& s[i + 2] == 0x6F
    &&& s[i + 3] == 0x73
    &&& s[i + 4] == 0x73
    &&& s[i + 5] == 0x22
}

/// One member at `i`: a known key, a colon, a number, whitespace allowed
/// between the tokens. Yields whether the key was `accuracy`, the value,
/// and the position after the last digit.
pub open spec fn spec_member(s: Seq<u8>, i: int) -> Option<(bool, u64, int)> {
    let key: Option<(bool, int)> = if accuracy_key_at(s, i) {
        Some((true, i + 10))
    } else if loss_key_at(s, i) {
        Some((false, i + 6))
    } else {
        None
    };
    match key {
        None => None,
        Some((is_accuracy, after_key)) => {
            let c: int = skip_ws(s, after_key);
            if c < s.len() && s[c] == 0x3A {
                let v: int = skip_ws(s, c + 1);
                match spec_number(s, v) {
                    None => None,
                    Some((value, j)) => Some((is_accuracy, value, j)),
                }
            } else {
                None
            }
        },
    }
}

/// The whole schema: `{` , two members with distinct keys in either order,
/// `,` between them, `}`, and nothing but whitespace before, between and
/// after. Yields the decoded record.
pub open spec fn parse_spec(s: Seq<u8>) -> Option<MLResponse> {
    let i0: int = skip_ws(s, 0);
    if i0 < s.len() && s[i0] == 0x7B {
        let i1: int = skip_ws(s, i0 + 1);
        match spec_member(s, i1) {
            None => None,
            Some((k1, v1, i2)) => {
                let i3: int = skip_ws(s, i2);
                if i3 < s.len() && s[i3] == 0x2C {
                    let i4: int = skip_ws(s, i3 + 1);
                    match spec_member(s, i4) {
                        None => None,
                        Some((k2, v2, i5)) => {
                            let i6: int = skip_ws(s, i5);
                            if i6 < s.len() && s[i6] == 0x7D && k1 != k2 && skip_ws(s, i6 + 1)
                                == s.len() {
                                if k1 {
                                    Some(MLResponse { accuracy: v1, loss: v2 })
                                } else {
                                    Some(MLResponse { accuracy: v2, loss: v1 })
                                }
                            } else {
                                None
                            }
                        },
                    }
                } else {
                    None
                }
            },
        }
    } else {
        None
    }
}

proof fn lemma_digit_end_bounds(s: Seq<u8>, i: int)
    requires
        0 <= i <= s.len(),
    ensures
        i <= digit_end(s, i) <= s.len(),
        forall|t: int| i <= t < digit_end(s, i) ==> is_digit(s[t]),
    decreases s.len() - i,
{
    if i < s.len() && is_digit(s[i]) {
        lemma_digit_end_bounds(s, i + 1);
    }
}

/// Parsing is a pure function of the captured bytes: any two results
/// decoded from the same bytes are identical.
pub proof fn lemma_parse_idempotent(s: Seq<u8>, r1: Option<MLResponse>, r2: Option<MLResponse>)
    requires
        r1 == parse_spec(s),
        r2 == parse_spec(s),
    ensures
        r1 == r2,
{
}

fn ws_byte(b: u8) -> (r: bool)
    ensures
        r == is_ws(b),
{
    b == 0x20 || b == 0x09 || b == 0x0A || b == 0x0D
}

fn digit_byte(b: u8) -> (r: bool)
    ensures
        r == is_digit(b),
{
    0x30 <= b && b <= 0x39
}

fn skip_ws_exec(bytes: &Vec<u8>, start: usize) -> (r: usize)
    requires
        start <= bytes@.len(),
    ensures
        r as int == skip_ws(bytes@, start as int),
        start <= r <= bytes@.len(),
{
    let n = bytes.len();
    let mut i = start;
    loop
        invariant
            start <= i <= n,
            n == bytes@.len(),
            skip_ws(bytes@, start as int) == skip_ws(bytes@, i as int),
        decreases n - i,
    {
        if i < n && ws_byte(bytes[i]) {
            i = i + 1;
        } else {
            return i;
        }
    }
}

fn parse_number(bytes: &Vec<u8>, start: usize) -> (r: Option<(u64, usize)>)
    requires
        start <= bytes@.len(),
    ensures
        match r {
            Some(p) => spec_number(bytes@, start as int) == Some((p.0, p.1 as int))
                && start < p.1 <= bytes@.len(),
            None => spec_number(bytes@, start as int) is None,
        },
{
    let n = bytes.len();
    if start >= n || !digit_byte(bytes[start]) {
        return None;
    }
    proof {
        lemma_digit_end_bounds(bytes@, start as int + 1);
    }
    let mut i = start;
    let mut acc: u64 = 0;
    let mut overflow = false;
    loop
        invariant
            start <= i <= n,
            n == bytes@.len(),
            start < n && is_digit(bytes@[start as int]),
            start < digit_end(bytes@, start as int),
            forall|t: int| start <= t < i ==> is_digit(bytes@[t]),
            digit_end(bytes@, start as int) == digit_end(bytes@, i as int),
            !overflow ==> acc == digits_value(bytes@, start as int, i as int),
            overflow ==> digits_value(bytes@, start as int, i as int) > u64::MAX,
        decreases n - i,
    {
        if i < n && digit_byte(bytes[i]) {
            let d = bytes[i] - 0x30;
            if !overflow {
                if acc > 1844674407370955161 || (acc == 1844674407370955161 && d > 5) {
                    overflow = true;
                } else {
                    acc = acc * 10 + (d as u64);
                }
            }
            i = i + 1;
        } else {
            if bytes[start] == 0x30 && i > start + 1 {
                return None;
            }
            if overflow {
                return None;
            }
            return Some((acc, i));
        }
    }
}

fn match_accuracy_key(bytes: &Vec<u8>, i: usize) -> (r: bool)
    requires
        i <= bytes@.len(),
    ensures
        r == accuracy_key_at(bytes@, i as int),
{
    let n = bytes.len();
    n - i >= 10 && bytes[i] == 0x22 && bytes[i + 1] == 0x61 && bytes[i + 2] == 0x63 && bytes[i + 3]
        == 0x63 && bytes[i + 4] == 0x75 && bytes[i + 5] == 0x72 && bytes[i + 6] == 0x61 && bytes[i
        + 7] == 0x63 && bytes[i + 8] == 0x79 && bytes[i + 9] == 0x22
}

fn match_loss_key(bytes: &Vec<u8>, i: usize) -> (r: bool)
    requires
        i <= bytes@.len(),
    ensures
        r == loss_key_at(bytes@, i as int),
{
    let n = bytes.len();
    n - i >= 6 && bytes[i] == 0x22 && bytes[i + 1] == 0x6C && bytes[i + 2] == 0x6F && bytes[i + 3]
        == 0x73 && bytes[i + 4] == 0x73 && bytes[i + 5] == 0x22
}

fn parse_member(bytes: &Vec<u8>, start: usize) -> (r: Option<(bool, u64, usize)>)
    requires
        start <= bytes@.len(),
    ensures
        match r {
            Some(p) => spec_member(bytes@, start as int) == Some((p.0, p.1, p.2 as int)) && p.2
                <= bytes@.len(),
            None => spec_member(bytes@, start as int) is None,
        },
{
    let n = bytes.len();
    let is_accuracy: bool;
    let after_key: usize;
    if match_accuracy_key(bytes, start) {
        is_accuracy = true;
        after_key = start + 10;
    } else if match_loss_key(bytes, start) {
        is_accuracy = false;
        after_key = start + 6;
    } else {
        return None;
    }
    let c = skip_ws_exec(bytes, after_key);
    if c < n && bytes[c] == 0x3A {
        let v = skip_ws_exec(bytes, c + 1);
        match parse_number(bytes, v) {
            Some(p) => Some((is_accuracy, p.0, p.1)),
            None => None,
        }
    } else {
        None
    }
}

/// Decodes one captured output according to the schema; returns exactly
/// what the grammar admits, `None` on any malformation.
pub fn parse_ml_response(bytes: &Vec<u8>) -> (r: Option<MLResponse>)
    ensures
        r == parse_spec(bytes@),
{
    let n = bytes.len();
    let i0 = skip_ws_exec(bytes, 0);
    if !(i0 < n && bytes[i0] == 0x7B) {
        return None;
    }
    let i1 = skip_ws_exec(bytes, i0 + 1);
    let first = match parse_member(bytes, i1) {
        Some(p) => p,
        None => {
            return None;
        },
    };
    let i3 = skip_ws_exec(bytes, first.2);
    if !(i3 < n && bytes[i3] == 0x2C) {
        return None;
    }
    let i4 = skip_ws_exec(bytes, i3 + 1);
    let second = match parse_member(bytes, i4) {
        Some(p) => p,
        None => {
            return None;
        },
    };
    let i6 = skip_ws_exec(bytes, second.2);
    if i6 < n && bytes[i6] == 0x7D && first.0 != second.0 && skip_ws_exec(bytes, i6 + 1) == n {
        if first.0 {
            Some(MLResponse { accuracy: first.1, loss: second.1 })
        } else {
            Some(MLResponse { accuracy: second.1, loss: first.1 })
        }
    } else {
        None
    }
}

} // verus!
