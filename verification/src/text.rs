//! Character and string helpers shared by the overlay modules.
//!
//! Lines coming out of the terminal are kept as ASCII byte buffers; status
//! and transcript text is kept as `String`.  This module provides the small
//! verified conversions between the two, whitespace trimming, and decimal
//! rendering of numbers.

use vstd::prelude::*;

verus! {

/// True for the characters the overlay treats as trimmable whitespace:
/// space, tab, line feed, form feed and carriage return.
pub open spec fn is_ws_char(c: char) -> bool {
    c == ' ' || c == '\t' || c == '\n' || c == '\u{c}' || c == '\r'
}

/// True for a printable ASCII character or the space character.
pub open spec fn is_graphic_or_space(c: char) -> bool {
    ' ' <= c <= '~'
}

/// Executable test matching `is_ws_char`.
pub fn ws_char(c: char) -> (r: bool)
    ensures
        r == is_ws_char(c),
{
    c == ' ' || c == '\t' || c == '\n' || c == '\u{c}' || c == '\r'
}

/// Executable test matching `is_graphic_or_space`.
pub fn graphic_or_space(c: char) -> (r: bool)
    ensures
        r == is_graphic_or_space(c),
{
    ' ' <= c && c <= '~'
}

/// Relies on `String::push`: appends exactly one character at the end.
#[verifier::external_body]
pub fn push_char(s: &mut String, c: char)
    ensures
        final(s)@ == old(s)@.push(c),
{
    s.push(c);
}

/// Collects the characters of a string slice into a vector.
pub fn chars_of(s: &str) -> (r: Vec<char>)
    ensures
        r@ == s@,
{
    let n = s.unicode_len();
    let mut out: Vec<char> = Vec::new();
    let mut i: usize = 0;
    while i < n
        invariant
            n == s@.len(),
            i <= n,
            out@ == s@.take(i as int),
        decreases n - i,
    {
        let c = s.get_char(i);
        out.push(c);
        i = i + 1;
        proof {
            assert(out@ =~= s@.take(i as int));
        }
    }
    proof {
        assert(out@ =~= s@);
    }
    out
}

/// Builds a string out of a character sequence.
pub fn string_from_chars(v: &Vec<char>) -> (r: String)
    ensures
        r@ == v@,
{
    let mut out = String::new();
    let mut i: usize = 0;
    while i < v.len()
        invariant
            i <= v@.len(),
            out@ == v@.take(i as int),
        decreases v@.len() - i,
    {
        push_char(&mut out, v[i]);
        i = i + 1;
        proof {
            assert(out@ =~= v@.take(i as int));
        }
    }
    proof {
        assert(out@ =~= v@);
    }
    out
}

/// The sequence without its trailing whitespace.
pub open spec fn trim_end_spec(s: Seq<char>) -> Seq<char>
    decreases s.len(),
{
    if s.len() > 0 && is_ws_char(s.last()) {
        trim_end_spec(s.drop_last())
    } else {
        s
    }
}

/// The sequence without its leading whitespace.
pub open spec fn trim_start_spec(s: Seq<char>) -> Seq<char>
    decreases s.len(),
{
    if s.len() > 0 && is_ws_char(s.first()) {
        trim_start_spec(s.drop_first())
    } else {
        s
    }
}

/// The sequence without leading and trailing whitespace.
pub open spec fn trim_spec(s: Seq<char>) -> Seq<char> {
    trim_start_spec(trim_end_spec(s))
}

proof fn lemma_trim_end_take(s: Seq<char>, end: int)
    requires
        0 < end <= s.len(),
        is_ws_char(s[end - 1]),
    ensures
        trim_end_spec(s.take(end)) == trim_end_spec(s.take(end - 1)),
{
    assert(s.take(end).last() == s[end - 1]);
    assert(s.take(end).drop_last() =~= s.take(end - 1));
}

proof fn lemma_trim_start_skip(s: Seq<char>, start: int)
    requires
        0 <= start < s.len(),
        is_ws_char(s[start]),
    ensures
        trim_start_spec(s.skip(start)) == trim_start_spec(s.skip(start + 1)),
{
    assert(s.skip(start).first() == s[start]);
    assert(s.skip(start).drop_first() =~= s.skip(start + 1));
}

/// The characters of `v` with leading and trailing whitespace removed.
pub fn trim_chars(v: &Vec<char>) -> (r: Vec<char>)
    ensures
        r@ == trim_spec(v@),
{
    proof {
        assert(v@.take(v@.len() as int) =~= v@);
    }
    let mut end: usize = v.len();
    while end > 0 && ws_char(v[end - 1])
        invariant
            end <= v@.len(),
            trim_end_spec(v@) == trim_end_spec(v@.take(end as int)),
        decreases end,
    {
        proof {
            lemma_trim_end_take(v@, end as int);
        }
        end = end - 1;
    }
    proof {
        if end > 0 {
            assert(v@.take(end as int).last() == v@[end - 1]);
        }
        assert(trim_end_spec(v@.take(end as int)) == v@.take(end as int));
    }
    proof {
        assert(v@.take(end as int).skip(0) =~= v@.take(end as int));
    }
    let mut start: usize = 0;
    while start < end && ws_char(v[start])
        invariant
            start <= end <= v@.len(),
            trim_end_spec(v@) == v@.take(end as int),
            trim_start_spec(v@.take(end as int)) == trim_start_spec(
                v@.take(end as int).skip(start as int),
            ),
        decreases end - start,
    {
        proof {
            assert(v@.take(end as int)[start as int] == v@[start as int]);
            lemma_trim_start_skip(v@.take(end as int), start as int);
        }
        start = start + 1;
    }
    proof {
        let kept = v@.take(end as int).skip(start as int);
        if start < end {
            assert(kept.first() == v@[start as int]);
        }
        assert(trim_start_spec(kept) == kept);
    }
    let mut out: Vec<char> = Vec::new();
    let mut i: usize = start;
    while i < end
        invariant
            start <= i <= end <= v@.len(),
            out@ == v@.take(end as int).skip(start as int).take(i - start),
        decreases end - i,
    {
        out.push(v[i]);
        i = i + 1;
        proof {
            assert(out@ =~= v@.take(end as int).skip(start as int).take(i - start));
        }
    }
    proof {
        assert(out@ =~= v@.take(end as int).skip(start as int));
    }
    out
}

/// The characters of `v` with trailing whitespace removed.
pub fn trim_end_chars(v: &Vec<char>) -> (r: Vec<char>)
    ensures
        r@ == trim_end_spec(v@),
{
    proof {
        assert(v@.take(v@.len() as int) =~= v@);
    }
    let mut end: usize = v.len();
    while end > 0 && ws_char(v[end - 1])
        invariant
            end <= v@.len(),
            trim_end_spec(v@) == trim_end_spec(v@.take(end as int)),
        decreases end,
    {
        proof {
            lemma_trim_end_take(v@, end as int);
        }
        end = end - 1;
    }
    proof {
        if end > 0 {
            assert(v@.take(end as int).last() == v@[end - 1]);
        }
        assert(trim_end_spec(v@.take(end as int)) == v@.take(end as int));
    }
    proof {
        assert(Seq::<char>::empty() =~= v@.take(end as int).take(0));
    }
    let mut out: Vec<char> = Vec::new();
    let mut i: usize = 0;
    while i < end
        invariant
            i <= end <= v@.len(),
            out@ == v@.take(end as int).take(i as int),
        decreases end - i,
    {
        out.push(v[i]);
        i = i + 1;
        proof {
            assert(out@ =~= v@.take(end as int).take(i as int));
        }
    }
    proof {
        assert(out@ =~= v@.take(end as int));
    }
    out
}

/// Returns `s` with leading and trailing whitespace removed.
pub fn trim_str(s: &str) -> (r: String)
    ensures
        r@ == trim_spec(s@),
{
    let chars = chars_of(s);
    let trimmed = trim_chars(&chars);
    string_from_chars(&trimmed)
}

/// The decimal digit character for `d`.
pub open spec fn dec_digit(d: int) -> char {
    if d == 0 {
        '0'
    } else if d == 1 {
        '1'
    } else if d == 2 {
        '2'
    } else if d == 3 {
        '3'
    } else if d == 4 {
        '4'
    } else if d == 5 {
        '5'
    } else if d == 6 {
        '6'
    } else if d == 7 {
        '7'
    } else if d == 8 {
        '8'
    } else {
        '9'
    }
}

/// The decimal representation of `n`, most significant digit first.
pub open spec fn dec_rep(n: nat) -> Seq<char>
    decreases n,
{
    if n < 10 {
        seq![dec_digit(n as int)]
    } else {
        dec_rep(n / 10).push(dec_digit((n % 10) as int))
    }
}

/// The decimal representation of a signed value: a minus sign when negative.
pub open spec fn dec_rep_signed(n: int) -> Seq<char> {
    if n < 0 {
        seq!['-'] + dec_rep((-n) as nat)
    } else {
        dec_rep(n as nat)
    }
}

fn digit_char(d: u64) -> (c: char)
    requires
        d < 10,
    ensures
        c == dec_digit(d as int),
{
    if d == 0 {
        '0'
    } else if d == 1 {
        '1'
    } else if d == 2 {
        '2'
    } else if d == 3 {
        '3'
    } else if d == 4 {
        '4'
    } else if d == 5 {
        '5'
    } else if d == 6 {
        '6'
    } else if d == 7 {
        '7'
    } else if d == 8 {
        '8'
    } else {
        '9'
    }
}

/// Appends the decimal digits of `n` to `out`.
pub fn push_dec_u64(out: &mut String, n: u64)
    ensures
        final(out)@ == old(out)@ + dec_rep(n as nat),
    decreases n,
{
    if n < 10 {
        push_char(out, digit_char(n));
        proof {
            assert(out@ =~= old(out)@ + dec_rep(n as nat));
        }
    } else {
        push_dec_u64(out, n / 10);
        push_char(out, digit_char(n % 10));
        proof {
            assert(out@ =~= old(out)@ + dec_rep(n as nat));
        }
    }
}

/// The decimal string of an unsigned value.
pub fn u64_to_string(n: u64) -> (r: String)
    ensures
        r@ == dec_rep(n as nat),
{
    let mut out = String::new();
    push_dec_u64(&mut out, n);
    proof {
        assert(out@ =~= dec_rep(n as nat));
    }
    out
}

/// The decimal string of a signed value, with a leading minus when negative.
pub fn i64_to_string(n: i64) -> (r: String)
    ensures
        r@ == dec_rep_signed(n as int),
{
    if n < 0 {
        let mut out = String::new();
        push_char(&mut out, '-');
        // i64::MIN would not negate; the overlay never holds such a value,
        // but the function stays total by going through u64.
        let magnitude: u64 = if n == i64::MIN {
            9223372036854775808u64
        } else {
            (-n) as u64
        };
        push_dec_u64(&mut out, magnitude);
        proof {
            assert(out@ =~= dec_rep_signed(n as int));
        }
        out
    } else {
        u64_to_string(n as u64)
    }
}

/// The characters standing for a sequence of ASCII bytes, one per byte.
pub open spec fn chars_of_bytes(bs: Seq<u8>) -> Seq<char> {
    bs.map_values(|b: u8| b as char)
}

/// Decodes a buffer of ASCII bytes into the string of the same characters.
pub fn string_of_ascii_bytes(v: &Vec<u8>) -> (r: String)
    requires
        forall|i: int| 0 <= i < v@.len() ==> v@[i] < 128,
    ensures
        r@ == chars_of_bytes(v@),
{
    let mut out = String::new();
    let mut i: usize = 0;
    while i < v.len()
        invariant
            i <= v@.len(),
            forall|j: int| 0 <= j < v@.len() ==> v@[j] < 128,
            out@ == chars_of_bytes(v@.take(i as int)),
        decreases v@.len() - i,
    {
        push_char(&mut out, v[i] as char);
        i = i + 1;
        proof {
            assert(out@ =~= chars_of_bytes(v@.take(i as int)));
        }
    }
    proof {
        assert(out@ =~= chars_of_bytes(v@));
    }
    out
}

/// Decodes a buffer of ASCII bytes into the same characters.
pub fn bytes_to_chars(v: &Vec<u8>) -> (r: Vec<char>)
    requires
        forall|i: int| 0 <= i < v@.len() ==> v@[i] < 128,
    ensures
        r@ == chars_of_bytes(v@),
{
    let mut out: Vec<char> = Vec::new();
    let mut i: usize = 0;
    while i < v.len()
        invariant
            i <= v@.len(),
            forall|j: int| 0 <= j < v@.len() ==> v@[j] < 128,
            out@ =~= chars_of_bytes(v@.take(i as int)),
        decreases v@.len() - i,
    {
        out.push(v[i] as char);
        i = i + 1;
        proof {
            assert(out@ =~= chars_of_bytes(v@.take(i as int)));
        }
    }
    proof {
        assert(out@ =~= chars_of_bytes(v@));
    }
    out
}

/// Compares two character vectors for equality of contents.
pub fn char_vecs_eq(a: &Vec<char>, b: &Vec<char>) -> (r: bool)
    ensures
        r == (a@ == b@),
{
    if a.len() != b.len() {
        proof {
            assert(a@.len() != b@.len());
        }
        return false;
    }
    let mut i: usize = 0;
    while i < a.len()
        invariant
            a@.len() == b@.len(),
            i <= a@.len(),
            forall|j: int| 0 <= j < i ==> a@[j] == b@[j],
        decreases a@.len() - i,
    {
        if a[i] != b[i] {
            return false;
        }
        i = i + 1;
    }
    proof {
        assert(a@ =~= b@);
    }
    true
}

/// Copies a byte vector.
pub fn copy_bytes(v: &Vec<u8>) -> (r: Vec<u8>)
    ensures
        r@ == v@,
{
    let mut out: Vec<u8> = Vec::new();
    let mut i: usize = 0;
    while i < v.len()
        invariant
            i <= v@.len(),
            out@ == v@.take(i as int),
        decreases v@.len() - i,
    {
        out.push(v[i]);
        i = i + 1;
        proof {
            assert(out@ =~= v@.take(i as int));
        }
    }
    proof {
        assert(out@ =~= v@);
    }
    out
}

} // verus!
