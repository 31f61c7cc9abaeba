//! Character-level utilities shared by the query, extraction and pipeline
//! layers: white-space classification, white-space normalization, bounded
//! truncation and decimal rendering of counters.

use vstd::prelude::*;
use vstd::string::StringExecFns;

verus! {

/// The characters with the Unicode `White_Space` property: the set that the
/// normalization pass collapses.
pub open spec fn is_space_char(c: char) -> bool {
    let u = c as u32;
    ||| u == 0x20
    ||| (0x09 <= u && u <= 0x0D)
    ||| u == 0x85
    ||| u == 0xA0
    ||| u == 0x1680
    ||| (0x2000 <= u && u <= 0x200A)
    ||| u == 0x2028
    ||| u == 0x2029
    ||| u == 0x202F
    ||| u == 0x205F
    ||| u == 0x3000
}

pub fn is_space(c: char) -> (r: bool)
    ensures
        r == is_space_char(c),
{
    let u = c as u32;
    u == 0x20 || (0x09 <= u && u <= 0x0D) || u == 0x85 || u == 0xA0 || u == 0x1680 || (0x2000 <= u
        && u <= 0x200A) || u == 0x2028 || u == 0x2029 || u == 0x202F || u == 0x205F || u == 0x3000
}

/// One step of the normalization pass: a white-space character becomes a
/// single `' '`, and only when the text built so far neither is empty nor
/// already ends in one; every other character is kept.
pub open spec fn norm_step(acc: Seq<char>, c: char) -> Seq<char> {
    if is_space_char(c) {
        if acc.len() == 0 || acc.last() == ' ' {
            acc
        } else {
            acc.push(' ')
        }
    } else {
        acc.push(c)
    }
}

pub open spec fn norm_fold(s: Seq<char>) -> Seq<char>
    decreases s.len(),
{
    if s.len() == 0 {
        Seq::empty()
    } else {
        norm_step(norm_fold(s.drop_last()), s.last())
    }
}

/// White-space normalization: every run of white space collapses to a single
/// space and both ends are trimmed.
pub open spec fn normalize_ws(s: Seq<char>) -> Seq<char> {
    let t = norm_fold(s);
    if t.len() > 0 && t.last() == ' ' {
        t.drop_last()
    } else {
        t
    }
}

pub open spec fn trim_left(s: Seq<char>) -> Seq<char>
    decreases s.len(),
{
    if s.len() > 0 && is_space_char(s[0]) {
        trim_left(s.drop_first())
    } else {
        s
    }
}

pub open spec fn trim_right(s: Seq<char>) -> Seq<char>
    decreases s.len(),
{
    if s.len() > 0 && is_space_char(s.last()) {
        trim_right(s.drop_last())
    } else {
        s
    }
}

/// `s` without its leading and trailing white space, nothing else changed.
pub open spec fn trim_ws(s: Seq<char>) -> Seq<char> {
    trim_right(trim_left(s))
}

/// The pieces concatenated, in order, with nothing between them.
pub open spec fn concat_parts(parts: Seq<Seq<char>>) -> Seq<char>
    decreases parts.len(),
{
    if parts.len() == 0 {
        Seq::empty()
    } else {
        concat_parts(parts.drop_last()) + parts.last()
    }
}

/// The pieces joined with a single space between each neighbouring pair.
pub open spec fn join_spaced(parts: Seq<Seq<char>>) -> Seq<char>
    decreases parts.len(),
{
    if parts.len() == 0 {
        Seq::empty()
    } else if parts.len() == 1 {
        parts[0]
    } else {
        join_spaced(parts.drop_last()) + " "@ + parts.last()
    }
}

/// The first `n` characters of `s`, or all of `s` when it is shorter.
pub open spec fn take_at_most(s: Seq<char>, n: nat) -> Seq<char> {
    if s.len() <= n {
        s
    } else {
        s.take(n as int)
    }
}

/// The characters of the string, in order.
pub(crate) fn chars_of(s: &str) -> (r: Vec<char>)
    ensures
        r@ == s@,
{
    let n = s.unicode_len();
    let mut out: Vec<char> = Vec::new();
    let mut i: usize = 0;
    while i < n
        invariant
            i <= n,
            n as nat == s@.len(),
            out@ == s@.take(i as int),
        decreases n - i,
    {
        let c = s.get_char(i);
        out.push(c);
        proof {
            assert(s@.take(i + 1 as int) =~= s@.take(i as int).push(s@[i as int]));
        }
        i = i + 1;
    }
    proof {
        assert(s@.take(n as int) =~= s@);
    }
    out
}

/// Relies on `String::from_iter`: the string made of exactly these characters.
#[verifier::external_body]
pub(crate) fn string_from_chars(v: Vec<char>) -> (r: String)
    ensures
        r@ == v@,
{
    String::from_iter(v)
}

/// Two string slices are equal exactly when their character sequences are.
pub(crate) fn str_eq(a: &str, b: &str) -> (r: bool)
    ensures
        r == (a@ == b@),
{
    let left = a.to_owned();
    let right = b.to_owned();
    left.eq(&right)
}

pub fn normalize_chars(cs: &Vec<char>) -> (out: Vec<char>)
    ensures
        out@ == normalize_ws(cs@),
{
    let mut out: Vec<char> = Vec::new();
    let mut i: usize = 0;
    while i < cs.len()
        invariant
            i <= cs@.len(),
            out@ == norm_fold(cs@.take(i as int)),
        decreases cs@.len() - i,
    {
        let c = cs[i];
        proof {
            assert(cs@.take(i + 1 as int).drop_last() =~= cs@.take(i as int));
            assert(cs@.take(i + 1 as int).last() == c);
        }
        if is_space(c) {
            if out.len() > 0 && out[out.len() - 1] != ' ' {
                out.push(' ');
            }
        } else {
            out.push(c);
        }
        i = i + 1;
    }
    proof {
        assert(cs@.take(cs@.len() as int) =~= cs@);
    }
    if out.len() > 0 && out[out.len() - 1] == ' ' {
        out.pop();
    }
    out
}

pub fn normalize_text(s: &str) -> (r: String)
    ensures
        r@ == normalize_ws(s@),
{
    let cs = chars_of(s);
    string_from_chars(normalize_chars(&cs))
}

pub fn take_chars(cs: &Vec<char>, n: usize) -> (out: Vec<char>)
    ensures
        out@ == take_at_most(cs@, n as nat),
{
    let mut out: Vec<char> = Vec::new();
    let mut i: usize = 0;
    while i < n && i < cs.len()
        invariant
            i <= cs@.len(),
            i <= n,
            out@ == cs@.take(i as int),
        decreases cs@.len() - i,
    {
        out.push(cs[i]);
        proof {
            assert(cs@.take(i + 1 as int) =~= cs@.take(i as int).push(cs@[i as int]));
        }
        i = i + 1;
    }
    out
}

pub fn truncate_chars(s: &str, n: usize) -> (r: String)
    ensures
        r@ == take_at_most(s@, n as nat),
{
    let cs = chars_of(s);
    string_from_chars(take_chars(&cs, n))
}

pub fn trim_chars(cs: &Vec<char>) -> (out: Vec<char>)
    ensures
        out@ == trim_ws(cs@),
{
    proof {
        assert(cs@.skip(0) =~= cs@);
    }
    let mut start: usize = 0;
    while start < cs.len() && is_space(cs[start])
        invariant
            start <= cs@.len(),
            trim_left(cs@) == trim_left(cs@.skip(start as int)),
        decreases cs@.len() - start,
    {
        proof {
            assert(cs@.skip(start as int)[0] == cs@[start as int]);
            assert(cs@.skip(start as int).drop_first() =~= cs@.skip(start as int + 1));
        }
        start = start + 1;
    }
    let ghost t = cs@.skip(start as int);
    proof {
        assert(trim_left(cs@) == t);
        assert(t.take(t.len() as int) =~= t);
    }
    let mut end: usize = cs.len();
    while end > start && is_space(cs[end - 1])
        invariant
            start <= end <= cs@.len(),
            t == cs@.skip(start as int),
            trim_right(t) == trim_right(t.take(end - start as int)),
        decreases end,
    {
        proof {
            assert(t.take(end - start as int).last() == cs@[end - 1]);
            assert(t.take(end - start as int).drop_last() =~= t.take(end - 1 - start as int));
        }
        end = end - 1;
    }
    proof {
        assert(trim_ws(cs@) == t.take(end - start as int));
    }
    let mut out: Vec<char> = Vec::new();
    let mut i: usize = start;
    while i < end
        invariant
            start <= i <= end <= cs@.len(),
            out@ == cs@.subrange(start as int, i as int),
        decreases end - i,
    {
        out.push(cs[i]);
        proof {
            assert(cs@.subrange(start as int, i + 1 as int) =~= cs@.subrange(
                start as int,
                i as int,
            ).push(cs@[i as int]));
        }
        i = i + 1;
    }
    proof {
        assert(out@ =~= t.take(end - start as int));
    }
    out
}

pub fn trim_text(s: &str) -> (r: String)
    ensures
        r@ == trim_ws(s@),
{
    let cs = chars_of(s);
    string_from_chars(trim_chars(&cs))
}

pub fn concat_strings(parts: &Vec<String>) -> (r: String)
    ensures
        r@ == concat_parts(parts.deep_view()),
{
    let ghost pdv = parts.deep_view();
    proof {
        assert(pdv.take(0) =~= Seq::<Seq<char>>::empty());
    }
    let mut r = String::new();
    let mut i: usize = 0;
    while i < parts.len()
        invariant
            i <= parts@.len(),
            pdv == parts.deep_view(),
            pdv.len() == parts@.len(),
            r@ == concat_parts(pdv.take(i as int)),
        decreases parts@.len() - i,
    {
        proof {
            assert(pdv.take(i + 1 as int).drop_last() =~= pdv.take(i as int));
            assert(pdv.take(i + 1 as int).last() == pdv[i as int]);
        }
        r.append(parts[i].as_str());
        i = i + 1;
    }
    proof {
        assert(pdv.take(pdv.len() as int) =~= pdv);
    }
    r
}

pub fn join_strings_spaced(parts: &Vec<String>) -> (r: String)
    ensures
        r@ == join_spaced(parts.deep_view()),
{
    let ghost pdv = parts.deep_view();
    proof {
        assert(pdv.take(0) =~= Seq::<Seq<char>>::empty());
    }
    let mut r = String::new();
    let mut i: usize = 0;
    while i < parts.len()
        invariant
            i <= parts@.len(),
            pdv == parts.deep_view(),
            pdv.len() == parts@.len(),
            r@ == join_spaced(pdv.take(i as int)),
        decreases parts@.len() - i,
    {
        proof {
            assert(pdv.take(i + 1 as int).drop_last() =~= pdv.take(i as int));
            assert(pdv.take(i + 1 as int).last() == pdv[i as int]);
        }
        if i > 0 {
            r.append(" ");
        }
        r.append(parts[i].as_str());
        proof {
            if i == 0 {
                assert(r@ =~= join_spaced(pdv.take(1)));
            }
        }
        i = i + 1;
    }
    proof {
        assert(pdv.take(pdv.len() as int) =~= pdv);
    }
    r
}

/// The decimal digit `d` stands for, for `d < 10`.
pub open spec fn digit_char(d: nat) -> char {
    if d == 0 {
        '0'
    } else if d == 1 {
        '1'
    } else if d == 2 {
        '2'
    } else if d == 3 {
        '3'
    } else if d == 4 {
        '4'
    } else if d == 5 {
        '5'
    } else if d == 6 {
        '6'
    } else if d == 7 {
        '7'
    } else if d == 8 {
        '8'
    } else {
        '9'
    }
}

/// The decimal rendering of `n`, most significant digit first, no leading
/// zeros (except for `n == 0` itself).
pub open spec fn dec_digits(n: nat) -> Seq<char>
    decreases n,
{
    if n < 10 {
        seq![digit_char(n)]
    } else {
        dec_digits(n / 10).push(digit_char(n % 10))
    }
}

fn digit_str(d: usize) -> (r: &'static str)
    requires
        d < 10,
    ensures
        r@ == seq![digit_char(d as nat)],
{
    proof {
        reveal_strlit("0");
        reveal_strlit("1");
        reveal_strlit("2");
        reveal_strlit("3");
        reveal_strlit("4");
        reveal_strlit("5");
        reveal_strlit("6");
        reveal_strlit("7");
        reveal_strlit("8");
        reveal_strlit("9");
    }
    if d == 0 {
        "0"
    } else if d == 1 {
        "1"
    } else if d == 2 {
        "2"
    } else if d == 3 {
        "3"
    } else if d == 4 {
        "4"
    } else if d == 5 {
        "5"
    } else if d == 6 {
        "6"
    } else if d == 7 {
        "7"
    } else if d == 8 {
        "8"
    } else {
        "9"
    }
}

pub fn usize_to_string(n: usize) -> (r: String)
    ensures
        r@ == dec_digits(n as nat),
    decreases n,
{
    if n < 10 {
        digit_str(n).to_owned()
    } else {
        let front = usize_to_string(n / 10);
        let r = front.concat(digit_str(n % 10));
        proof {
            assert(r@ =~= dec_digits((n / 10) as nat).push(digit_char((n % 10) as nat)));
        }
        r
    }
}

} // verus!
