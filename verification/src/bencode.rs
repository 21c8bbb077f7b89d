use vstd::prelude::*;
use vstd::string::*;

use crate::arith::{sat_add, sat_add_exec, sat_mul, sat_mul_exec};

verus! {

/// Whether a byte is an ASCII decimal digit.
pub open spec fn is_digit(b: u8) -> bool {
    48 <= b <= 57
}

/// The first position at or after `pos` holding no digit.
pub open spec fn digits_end(s: Seq<u8>, pos: int) -> int
    decreases s.len() - pos,
{
    if pos < 0 || pos >= s.len() || !is_digit(s[pos]) {
        pos
    } else {
        digits_end(s, pos + 1)
    }
}

pub proof fn lemma_digits_end(s: Seq<u8>, pos: int)
    requires
        0 <= pos <= s.len(),
    ensures
        pos <= digits_end(s, pos) <= s.len(),
    decreases s.len() - pos,
{
    if pos < s.len() && is_digit(s[pos]) {
        lemma_digits_end(s, pos + 1);
    }
}

/// The value of the digit run from `pos` to `end`, folded onto `acc` and
/// stopping at the largest representable count.
pub open spec fn digits_value(s: Seq<u8>, pos: int, end: int, acc: u64) -> u64
    decreases end - pos,
{
    if pos >= end {
        acc
    } else {
        digits_value(s, pos + 1, end, sat_add(sat_mul(acc, 10), (s[pos] - 48) as u64))
    }
}

/// Reads a run of digits, matching `digits_end` and `digits_value`.
pub fn parse_digits(s: &Vec<u8>, pos: usize) -> (r: (u64, usize))
    requires
        pos <= s@.len(),
    ensures
        r.1 == digits_end(s@, pos as int),
        r.0 == digits_value(s@, pos as int, r.1 as int, 0),
        pos <= r.1 <= s@.len(),
{
    let mut p = pos;
    let mut acc: u64 = 0;
    proof {
        lemma_digits_end(s@, pos as int);
    }
    while p < s.len() && s[p] >= 48 && s[p] <= 57
        invariant
            pos <= p <= s@.len(),
            digits_end(s@, p as int) == digits_end(s@, pos as int),
            digits_value(s@, p as int, digits_end(s@, pos as int), acc) == digits_value(
                s@,
                pos as int,
                digits_end(s@, pos as int),
                0,
            ),
            p <= digits_end(s@, pos as int),
        decreases s@.len() - p,
    {
        let d: u64 = (s[p] - 48) as u64;
        acc = sat_add_exec(sat_mul_exec(acc, 10), d);
        p += 1;
        proof {
            lemma_digits_end(s@, p as int);
        }
    }
    (acc, p)
}

/// What reading a bencoded integer at `pos` gives: the saturated value
/// (negative values read as zero) and the position after the closing
/// marker — or nothing where no well-formed integer starts there.
pub open spec fn spec_benc_int(s: Seq<u8>, pos: int) -> Option<(u64, int)> {
    if 0 <= pos < s.len() && s[pos] == 105 {
        let neg = pos + 1 < s.len() && s[pos + 1] == 45;
        let dstart = if neg {
            pos + 2
        } else {
            pos + 1
        };
        let dend = digits_end(s, dstart);
        if dend > dstart && dend < s.len() && s[dend] == 101 {
            Some(
                (
                    if neg {
                        0u64
                    } else {
                        digits_value(s, dstart, dend, 0)
                    },
                    dend + 1,
                ),
            )
        } else {
            None
        }
    } else {
        None
    }
}

/// Reads a bencoded integer, matching `spec_benc_int`.
pub fn parse_benc_int(s: &Vec<u8>, pos: usize) -> (r: Option<(u64, usize)>)
    requires
        pos <= s@.len(),
    ensures
        (match r {
            Some(v) => spec_benc_int(s@, pos as int) == Some((v.0, v.1 as int)) && pos < v.1
                <= s@.len(),
            None => spec_benc_int(s@, pos as int) is None,
        }),
{
    if pos >= s.len() || s[pos] != 105 {
        return None;
    }
    let neg = pos + 1 < s.len() && s[pos + 1] == 45;
    let dstart = if neg {
        pos + 2
    } else {
        pos + 1
    };
    if dstart > s.len() {
        proof {
            lemma_digits_end(s@, s@.len() as int);
        }
        return None;
    }
    let (val, dend) = parse_digits(s, dstart);
    if dend > dstart && dend < s.len() && s[dend] == 101 {
        Some(
            (
                if neg {
                    0
                } else {
                    val
                },
                dend + 1,
            ),
        )
    } else {
        None
    }
}

/// What reading a bencoded byte string at `pos` gives: the bytes and the
/// position after them — or nothing where no well-formed string starts
/// there or its declared length overruns the input.
pub open spec fn spec_benc_str(s: Seq<u8>, pos: int) -> Option<(Seq<u8>, int)> {
    if 0 <= pos < s.len() && is_digit(s[pos]) {
        let dend = digits_end(s, pos);
        let n = digits_value(s, pos, dend, 0) as int;
        if dend < s.len() && s[dend] == 58 && dend + 1 + n <= s.len() {
            Some((s.subrange(dend + 1, dend + 1 + n), dend + 1 + n))
        } else {
            None
        }
    } else {
        None
    }
}

/// Reads a bencoded byte string, matching `spec_benc_str`.
pub fn parse_benc_str(s: &Vec<u8>, pos: usize) -> (r: Option<(Vec<u8>, usize)>)
    requires
        pos <= s@.len(),
    ensures
        (match r {
            Some(v) => spec_benc_str(s@, pos as int) matches Some(sp) && v.0@ == sp.0 && v.1
                == sp.1 && pos < v.1 <= s@.len(),
            None => spec_benc_str(s@, pos as int) is None,
        }),
{
    if pos >= s.len() || s[pos] < 48 || s[pos] > 57 {
        return None;
    }
    let (n, dend) = parse_digits(s, pos);
    if dend >= s.len() || s[dend] != 58 {
        return None;
    }
    if n > (s.len() - dend - 1) as u64 {
        return None;
    }
    let n = n as usize;
    let start = dend + 1;
    let slen = s.len();
    let mut out: Vec<u8> = Vec::new();
    let mut i: usize = 0;
    while i < n
        invariant
            slen == s@.len(),
            start + n <= slen,
            i <= n,
            out@ == s@.subrange(start as int, start + i),
        decreases n - i,
    {
        out.push(s[start + i]);
        proof {
            assert(out@ =~= s@.subrange(start as int, start + i + 1));
        }
        i += 1;
    }
    Some((out, start + n))
}

/// Where the bencoded value starting at `pos` ends — or nothing where no
/// well-formed value starts there.  A list or dictionary ends where its
/// items and the closing marker end.
pub open spec fn spec_skip_value(s: Seq<u8>, pos: int) -> Option<int>
    decreases s.len() - pos, 0int,
{
    if 0 <= pos < s.len() {
        if s[pos] == 105 {
            match spec_benc_int(s, pos) {
                Some(v) => Some(v.1),
                None => None,
            }
        } else if is_digit(s[pos]) {
            match spec_benc_str(s, pos) {
                Some(v) => Some(v.1),
                None => None,
            }
        } else if s[pos] == 108 || s[pos] == 100 {
            spec_skip_items(s, pos + 1)
        } else {
            None
        }
    } else {
        None
    }
}

/// Where a run of bencoded values ends: at the position after the first
/// closing marker met.
pub open spec fn spec_skip_items(s: Seq<u8>, pos: int) -> Option<int>
    decreases s.len() - pos, 1int,
{
    if 0 <= pos < s.len() {
        if s[pos] == 101 {
            Some(pos + 1)
        } else {
            match spec_skip_value(s, pos) {
                Some(p2) => if pos < p2 <= s.len() {
                    spec_skip_items(s, p2)
                } else {
                    None
                },
                None => None,
            }
        }
    } else {
        None
    }
}

pub proof fn lemma_skip_value_bounds(s: Seq<u8>, pos: int)
    requires
        0 <= pos <= s.len(),
    ensures
        spec_skip_value(s, pos) matches Some(p2) ==> pos < p2 <= s.len(),
    decreases s.len() - pos, 0int,
{
    if 0 <= pos < s.len() {
        if s[pos] == 105 {
            if pos + 1 < s.len() && s[pos + 1] == 45 {
                lemma_digits_end(s, pos + 2);
            } else {
                lemma_digits_end(s, pos + 1);
            }
        } else if is_digit(s[pos]) {
            lemma_digits_end(s, pos);
        } else if s[pos] == 108 || s[pos] == 100 {
            lemma_skip_items_bounds(s, pos + 1);
        }
    }
}

pub proof fn lemma_skip_items_bounds(s: Seq<u8>, pos: int)
    requires
        0 <= pos <= s.len(),
    ensures
        spec_skip_items(s, pos) matches Some(p2) ==> pos < p2 <= s.len(),
    decreases s.len() - pos, 1int,
{
    if 0 <= pos < s.len() && s[pos] != 101 {
        lemma_skip_value_bounds(s, pos);
        match spec_skip_value(s, pos) {
            Some(p2) => {
                if pos < p2 <= s.len() {
                    lemma_skip_items_bounds(s, p2);
                }
            },
            None => {},
        }
    }
}

/// The bytes of an ASCII key, character for character.
pub open spec fn ascii_bytes(s: Seq<char>) -> Seq<u8> {
    Seq::new(s.len(), |i: int| s[i] as u8)
}

/// Whether collected bytes spell an ASCII key.
pub fn bytes_eq_str(bs: &Vec<u8>, key: &str) -> (r: bool)
    requires
        key.is_ascii(),
    ensures
        r == (bs@ == ascii_bytes(key@)),
{
    let kb = key.as_bytes();
    proof {
        vstd::string::is_ascii_spec_bytes(key);
        assert(kb@ =~= ascii_bytes(key@));
    }
    if bs.len() != kb.len() {
        proof {
            assert(bs@.len() != ascii_bytes(key@).len());
        }
        return false;
    }
    let mut i: usize = 0;
    while i < bs.len()
        invariant
            bs@.len() == kb@.len(),
            kb@ == ascii_bytes(key@),
            forall|j: int| 0 <= j < i ==> bs@[j] == kb@[j],
            i <= bs@.len(),
        decreases bs@.len() - i,
    {
        if bs[i] != kb[i] {
            return false;
        }
        i += 1;
    }
    proof {
        assert(bs@ =~= ascii_bytes(key@));
    }
    true
}

/// Steps over one bencoded value, matching `spec_skip_value`.
pub fn skip_value(s: &Vec<u8>, pos: usize) -> (r: Option<usize>)
    requires
        pos <= s@.len(),
    ensures
        (match r {
            Some(p2) => spec_skip_value(s@, pos as int) == Some(p2 as int) && pos < p2
                <= s@.len(),
            None => spec_skip_value(s@, pos as int) is None,
        }),
    decreases s@.len() - pos, 0int,
{
    proof {
        lemma_skip_value_bounds(s@, pos as int);
    }
    if pos >= s.len() {
        return None;
    }
    let b = s[pos];
    if b == 105 {
        match parse_benc_int(s, pos) {
            Some(v) => Some(v.1),
            None => None,
        }
    } else if b >= 48 && b <= 57 {
        match parse_benc_str(s, pos) {
            Some(v) => Some(v.1),
            None => None,
        }
    } else if b == 108 || b == 100 {
        skip_items(s, pos + 1)
    } else {
        None
    }
}

/// Steps over values up to a closing marker, matching `spec_skip_items`.
pub fn skip_items(s: &Vec<u8>, pos: usize) -> (r: Option<usize>)
    requires
        pos <= s@.len(),
    ensures
        (match r {
            Some(p2) => spec_skip_items(s@, pos as int) == Some(p2 as int) && pos < p2
                <= s@.len(),
            None => spec_skip_items(s@, pos as int) is None,
        }),
    decreases s@.len() - pos, 1int,
{
    proof {
        lemma_skip_items_bounds(s@, pos as int);
    }
    if pos >= s.len() {
        return None;
    }
    if s[pos] == 101 {
        return Some(pos + 1);
    }
    match skip_value(s, pos) {
        Some(p2) => skip_items(s, p2),
        None => None,
    }
}

} // verus!
