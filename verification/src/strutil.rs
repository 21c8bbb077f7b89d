use vstd::prelude::*;
use vstd::string::*;

verus! {

/// The character standing for one decimal digit value.
pub open spec fn digit_char(d: int) -> char {
    ((d + 48) as u8) as char
}

/// The decimal digit sequence of a nonnegative number, most significant first.
pub open spec fn dec_digits(n: int) -> Seq<char>
    decreases n,
{
    if n < 10 {
        seq![digit_char(n)]
    } else {
        dec_digits(n / 10).push(digit_char(n % 10))
    }
}

/// The lowercase hexadecimal character of one value below sixteen.
pub open spec fn hex_char_lower(d: int) -> char {
    if d < 10 {
        digit_char(d)
    } else {
        ((d + 87) as u8) as char
    }
}

/// The uppercase hexadecimal character of one value below sixteen.
pub open spec fn hex_char_upper(d: int) -> char {
    if d < 10 {
        digit_char(d)
    } else {
        ((d + 55) as u8) as char
    }
}

/// Lowercase hexadecimal rendering of a byte sequence, two characters per byte.
pub open spec fn hex_lower(bs: Seq<u8>) -> Seq<char>
    decreases bs.len(),
{
    if bs.len() == 0 {
        Seq::<char>::empty()
    } else {
        hex_lower(bs.drop_last()).push(hex_char_lower(bs.last() as int / 16)).push(
            hex_char_lower(bs.last() as int % 16),
        )
    }
}

/// Percent-escaping of a byte sequence in which every byte is escaped,
/// as `%` followed by two uppercase hexadecimal characters.
pub open spec fn percent_encoded(bs: Seq<u8>) -> Seq<char>
    decreases bs.len(),
{
    if bs.len() == 0 {
        Seq::<char>::empty()
    } else {
        percent_encoded(bs.drop_last()).push('%').push(
            hex_char_upper(bs.last() as int / 16),
        ).push(hex_char_upper(bs.last() as int % 16))
    }
}

/// A sequence padded with `c` up to width `w`, or cut down to `w` if longer.
pub open spec fn padded_to(s: Seq<char>, w: int, c: char) -> Seq<char> {
    if s.len() >= w {
        s.take(w)
    } else {
        s + Seq::<char>::new((w - s.len()) as nat, |i: int| c)
    }
}

/// The pieces of a character sequence between its dots.  A sequence without
/// dots is one piece; every dot separates two (possibly empty) pieces.
pub open spec fn split_dots(s: Seq<char>) -> Seq<Seq<char>>
    decreases s.len(),
{
    if s.len() == 0 {
        seq![Seq::<char>::empty()]
    } else if s[0] == '.' {
        seq![Seq::<char>::empty()] + split_dots(s.drop_first())
    } else {
        let rest = split_dots(s.drop_first());
        seq![seq![s[0]] + rest[0]] + rest.drop_first()
    }
}

/// The sequence with every dot removed.
pub open spec fn without_dots(s: Seq<char>) -> Seq<char>
    decreases s.len(),
{
    if s.len() == 0 {
        Seq::<char>::empty()
    } else if s.last() == '.' {
        without_dots(s.drop_last())
    } else {
        without_dots(s.drop_last()).push(s.last())
    }
}

/// Whether a character is an ASCII digit or letter.
pub open spec fn is_alnum_char(c: char) -> bool {
    (48 <= c as int <= 57) || (65 <= c as int <= 90) || (97 <= c as int <= 122)
}

/// Whether a character is an ASCII digit or an uppercase hexadecimal letter.
pub open spec fn is_upper_hex_char(c: char) -> bool {
    (48 <= c as int <= 57) || (65 <= c as int <= 70)
}

/// Relies on String::push: appends exactly the given character.
#[verifier::external_body]
pub(crate) fn push_char(s: &mut String, c: char)
    ensures
        final(s)@ == old(s)@.push(c),
{
    s.push(c);
}

/// Renders a number in decimal, matching `dec_digits`.
pub fn u64_string(n: u64) -> (r: String)
    ensures
        r@ == dec_digits(n as int),
    decreases n,
{
    let d: u8 = (n % 10) as u8;
    let c: char = (d + 48) as char;
    if n < 10 {
        let mut s = String::new();
        push_char(&mut s, c);
        assert(s@ =~= dec_digits(n as int));
        s
    } else {
        let mut s = u64_string(n / 10);
        push_char(&mut s, c);
        s
    }
}

/// Renders bytes as lowercase hexadecimal, matching `hex_lower`.
pub fn hex_lower_string(bs: &[u8]) -> (r: String)
    ensures
        r@ == hex_lower(bs@),
{
    let mut s = String::new();
    let mut i: usize = 0;
    while i < bs.len()
        invariant
            i <= bs@.len(),
            s@ == hex_lower(bs@.take(i as int)),
        decreases bs@.len() - i,
    {
        let b = bs[i];
        let hi: u8 = b / 16;
        let lo: u8 = b % 16;
        push_char(&mut s, hex_char_of(hi, false));
        push_char(&mut s, hex_char_of(lo, false));
        proof {
            assert(bs@.take(i + 1).drop_last() =~= bs@.take(i as int));
            assert(bs@.take(i + 1).last() == bs@[i as int]);
        }
        i += 1;
    }
    proof {
        assert(bs@.take(bs@.len() as int) =~= bs@);
    }
    s
}

/// Percent-escapes every byte, matching `percent_encoded`.
pub fn percent_encode_all(bs: &[u8]) -> (r: String)
    ensures
        r@ == percent_encoded(bs@),
{
    let mut s = String::new();
    let mut i: usize = 0;
    while i < bs.len()
        invariant
            i <= bs@.len(),
            s@ == percent_encoded(bs@.take(i as int)),
        decreases bs@.len() - i,
    {
        let b = bs[i];
        let hi: u8 = b / 16;
        let lo: u8 = b % 16;
        push_char(&mut s, '%');
        push_char(&mut s, hex_char_of(hi, true));
        push_char(&mut s, hex_char_of(lo, true));
        proof {
            assert(bs@.take(i + 1).drop_last() =~= bs@.take(i as int));
            assert(bs@.take(i + 1).last() == bs@[i as int]);
        }
        i += 1;
    }
    proof {
        assert(bs@.take(bs@.len() as int) =~= bs@);
    }
    s
}

/// The character of one value below sixteen, uppercase when asked.
fn hex_char_of(d: u8, upper: bool) -> (c: char)
    requires
        d < 16,
    ensures
        upper ==> c == hex_char_upper(d as int),
        !upper ==> c == hex_char_lower(d as int),
{
    if d < 10 {
        (d + 48) as char
    } else if upper {
        (d + 55) as char
    } else {
        (d + 87) as char
    }
}

/// Pads with `c` up to `width` characters, or cuts down to `width` if
/// the input is longer, matching `padded_to`.
pub fn pad_to_width_with_char(s: &str, width: usize, c: char) -> (r: String)
    ensures
        r@ == padded_to(s@, width as int, c),
{
    let n = s.unicode_len();
    if n >= width {
        let cut = s.substring_char(0, width);
        proof {
            assert(cut@ =~= s@.take(width as int));
        }
        cut.to_owned()
    } else {
        let mut r = s.to_owned();
        let mut i: usize = n;
        while i < width
            invariant
                n <= i <= width,
                n == s@.len(),
                r@ == s@ + Seq::<char>::new((i - n) as nat, |k: int| c),
            decreases width - i,
        {
            push_char(&mut r, c);
            proof {
                assert(r@ =~= s@ + Seq::<char>::new((i + 1 - n) as nat, |k: int| c));
            }
            i += 1;
        }
        r
    }
}

/// Removes every dot from a string, matching `without_dots`.
pub fn without_dots_string(s: &str) -> (r: String)
    ensures
        r@ == without_dots(s@),
{
    let n = s.unicode_len();
    let mut r = String::new();
    let mut i: usize = 0;
    while i < n
        invariant
            i <= n,
            n == s@.len(),
            r@ == without_dots(s@.take(i as int)),
        decreases n - i,
    {
        let c = s.get_char(i);
        if c != '.' {
            push_char(&mut r, c);
        }
        proof {
            assert(s@.take(i + 1).drop_last() =~= s@.take(i as int));
            assert(s@.take(i + 1).last() == s@[i as int]);
        }
        i += 1;
    }
    proof {
        assert(s@.take(n as int) =~= s@);
    }
    r
}

/// Character-for-character string equality.
pub fn str_eq(a: &str, b: &str) -> (r: bool)
    ensures
        r == (a@ == b@),
{
    let na = a.unicode_len();
    let nb = b.unicode_len();
    if na != nb {
        proof {
            assert(a@.len() != b@.len());
        }
        return false;
    }
    let mut i: usize = 0;
    while i < na
        invariant
            i <= na,
            na == a@.len(),
            na == b@.len(),
            forall|j: int| 0 <= j < i ==> a@[j] == b@[j],
        decreases na - i,
    {
        if a.get_char(i) != b.get_char(i) {
            return false;
        }
        i += 1;
    }
    proof {
        assert(a@ =~= b@);
    }
    true
}

/// Splits a string on dots, matching `split_dots`.
pub fn split_dots_string(s: &str) -> (parts: Vec<String>)
    ensures
        parts@.map_values(|p: String| p@) == split_dots(s@),
{
    let n = s.unicode_len();
    let parts = split_dots_from(s, 0, n);
    proof {
        assert(s@.skip(0) =~= s@);
    }
    parts
}

fn split_dots_from(s: &str, from: usize, n: usize) -> (parts: Vec<String>)
    requires
        from <= n,
        n == s@.len(),
    ensures
        parts@.map_values(|p: String| p@) == split_dots(s@.skip(from as int)),
        parts@.len() >= 1,
    decreases n - from,
{
    if from == n {
        let mut parts: Vec<String> = Vec::new();
        parts.push(String::new());
        proof {
            assert(s@.skip(n as int) =~= Seq::<char>::empty());
            assert(parts@.map_values(|p: String| p@) =~= split_dots(s@.skip(from as int)));
        }
        parts
    } else {
        let c = s.get_char(from);
        proof {
            assert(s@.skip(from as int)[0] == s@[from as int]);
            assert(s@.skip(from as int).drop_first() =~= s@.skip(from + 1));
        }
        if c == '.' {
            let mut parts = split_dots_from(s, from + 1, n);
            let ghost restv = parts@.map_values(|p: String| p@);
            let ghost before = parts@;
            parts.insert(0, String::new());
            proof {
                before.insert_ensures(0, parts@[0]);
                let goal = seq![Seq::<char>::empty()] + restv;
                let newv = parts@.map_values(|p: String| p@);
                assert forall|k: int| 0 <= k < newv.len() implies newv[k] == goal[k] by {
                    assert(newv[k] == parts@[k]@);
                    if k > 0 {
                        assert(parts@[k] == before[k - 1]);
                        assert(restv[k - 1] == before[k - 1]@);
                    }
                }
                assert(newv =~= goal);
            }
            parts
        } else {
            let mut rest = split_dots_from(s, from + 1, n);
            let ghost restv = rest@.map_values(|p: String| p@);
            let mut head = String::new();
            push_char(&mut head, c);
            head.append(rest[0].as_str());
            rest.set(0, head);
            proof {
                let newv = rest@.map_values(|p: String| p@);
                assert(newv[0] =~= seq![s@[from as int]] + restv[0]);
                assert(newv.drop_first() =~= restv.drop_first());
                assert(newv =~= seq![seq![s@.skip(from as int)[0]] + restv[0]]
                    + restv.drop_first());
            }
            rest
        }
    }
}

} // verus!
