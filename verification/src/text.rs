//! Character sequences, their UTF-8 byte offsets and small string helpers.

use vstd::prelude::*;
use vstd::utf8::*;
use vstd::string::*;

verus! {

broadcast use vstd::utf8::char_is_scalar;

/// Number of bytes the UTF-8 encoding of `t` takes.
pub open spec fn byte_len(t: Seq<char>) -> nat {
    encode_utf8(t).len()
}

/// Byte offset, in the UTF-8 encoding of `t`, of the char with index `i`.
pub open spec fn byte_offset(t: Seq<char>, i: int) -> nat {
    byte_len(t.take(i))
}

/// Number of bytes of the UTF-8 encoding of one char.
pub open spec fn char_width(c: char) -> nat {
    encode_scalar(c as u32).len()
}

/// The encoding of a concatenation is the concatenation of the encodings.
pub proof fn lemma_encode_utf8_concat(a: Seq<char>, b: Seq<char>)
    ensures
        encode_utf8(a + b) == encode_utf8(a) + encode_utf8(b),
    decreases a.len(),
{
    if a.len() == 0 {
        assert(a + b =~= b);
    } else {
        assert((a + b).drop_first() =~= a.drop_first() + b);
        lemma_encode_utf8_concat(a.drop_first(), b);
        assert((a + b)[0] == a[0]);
    }
}

/// Every char takes one to four bytes.
pub proof fn lemma_char_width_bounds(c: char)
    ensures
        1 <= char_width(c) <= 4,
{
}

/// The byte length of a prefix grows by the width of the next char.
pub proof fn lemma_byte_offset_step(t: Seq<char>, i: int)
    requires
        0 <= i < t.len(),
    ensures
        byte_offset(t, i + 1) == byte_offset(t, i) + char_width(t[i]),
{
    assert(t.take(i + 1) =~= t.take(i) + seq![t[i]]);
    lemma_encode_utf8_concat(t.take(i), seq![t[i]]);
    let s = seq![t[i]];
    assert(s.drop_first() =~= Seq::<char>::empty());
    reveal_with_fuel(encode_utf8, 2);
    assert(encode_utf8(s) =~= encode_scalar(t[i] as u32));
}

/// Byte offsets of prefixes are monotone and bounded by the whole length.
pub proof fn lemma_byte_offset_monotone(t: Seq<char>, i: int, j: int)
    requires
        0 <= i <= j <= t.len(),
    ensures
        byte_offset(t, i) <= byte_offset(t, j) <= byte_len(t),
        i < j ==> byte_offset(t, i) < byte_offset(t, j),
    decreases j - i,
{
    lemma_byte_offset_le(t, i, j);
    lemma_byte_offset_le(t, j, t.len() as int);
    assert(t.take(t.len() as int) =~= t);
}

proof fn lemma_byte_offset_le(t: Seq<char>, i: int, j: int)
    requires
        0 <= i <= j <= t.len(),
    ensures
        byte_offset(t, i) <= byte_offset(t, j),
        i < j ==> byte_offset(t, i) < byte_offset(t, j),
    decreases j - i,
{
    if i < j {
        lemma_byte_offset_step(t, j - 1);
        lemma_char_width_bounds(t[j - 1]);
        lemma_byte_offset_le(t, i, j - 1);
    }
}

/// Width of a char's UTF-8 encoding.
pub fn char_width_exec(c: char) -> (w: usize)
    ensures
        w == char_width(c),
{
    let v: u32 = c as u32;
    if v <= 0x7F {
        1
    } else if v <= 0x7FF {
        2
    } else if v <= 0xFFFF {
        3
    } else {
        4
    }
}

/// The chars of a string, in order.
pub fn text_chars(text: &str) -> (r: Vec<char>)
    ensures
        r@ == text@,
{
    let mut v: Vec<char> = Vec::new();
    for c in iter: text.chars()
        invariant
            v@ == iter.seq().take(iter.index() as int),
            iter.seq() == text@,
    {
        v.push(c);
    }
    v
}

/// The byte length of a string is the byte length of its chars.
pub fn str_byte_len(text: &str) -> (n: usize)
    ensures
        n == byte_len(text@),
{
    let b = text.as_bytes();
    b.len()
}

/// Whether two strings hold the same chars.
pub fn str_equal(a: &str, b: &str) -> (r: bool)
    ensures
        r == (a@ == b@),
{
    let x = a.as_bytes();
    let y = b.as_bytes();
    assert(x@ == encode_utf8(a@));
    assert(y@ == encode_utf8(b@));
    proof {
        encode_utf8_decode_utf8(a@);
        encode_utf8_decode_utf8(b@);
    }
    if x.len() != y.len() {
        return false;
    }
    let mut i: usize = 0;
    while i < x.len()
        invariant
            x@.len() == y@.len(),
            x@ == encode_utf8(a@),
            y@ == encode_utf8(b@),
            i <= x@.len(),
            forall|j: int| 0 <= j < i ==> x@[j] == y@[j],
        decreases x@.len() - i,
    {
        if x[i] != y[i] {
            assert(x@[i as int] != y@[i as int]);
            assert(x@ != y@);
            return false;
        }
        i = i + 1;
    }
    assert(x@ =~= y@);
    true
}

/// A string made of the chars `from..to` of `text`.
pub fn substring(text: &str, from: usize, to: usize) -> (r: String)
    requires
        from <= to <= text@.len(),
    ensures
        r@ == text@.subrange(from as int, to as int),
{
    let s = text.substring_char(from, to);
    String::from_str(s)
}

/// Whether `c` is one of the ASCII digits `0` to `9`.
pub open spec fn is_ascii_digit(c: char) -> bool {
    '0' <= c && c <= '9'
}

/// The number that a string of ASCII digits writes in decimal.
pub open spec fn digits_value(s: Seq<char>) -> nat
    decreases s.len(),
{
    if s.len() == 0 {
        0
    } else {
        digits_value(s.drop_last()) * 10 + ((s.last() as int) - ('0' as int)) as nat
    }
}

/// `s` without a leading `+`, if it has one.
pub open spec fn without_plus(s: Seq<char>) -> Seq<char> {
    if s.len() > 0 && s[0] == '+' {
        s.drop_first()
    } else {
        s
    }
}

/// Every char of `d` is an ASCII digit.
pub open spec fn all_ascii_digits(d: Seq<char>) -> bool {
    forall|i: int| 0 <= i < d.len() ==> is_ascii_digit(#[trigger] d[i])
}

/// What `str::parse::<u32>` gives: an optional `+` followed by at least one
/// ASCII digit, whose value fits in 32 bits; `None` otherwise.
pub open spec fn parse_u32_spec(s: Seq<char>) -> Option<u32> {
    let d = without_plus(s);
    if d.len() > 0 && all_ascii_digits(d) && digits_value(d) <= u32::MAX {
        Some(digits_value(d) as u32)
    } else {
        None
    }
}

/// Parses a decimal `u32` as `str::parse::<u32>` does.
pub fn parse_u32(s: &str) -> (r: Option<u32>)
    ensures
        r == parse_u32_spec(s@),
{
    let cs = text_chars(s);
    let n = cs.len();
    let mut start: usize = 0;
    if n > 0 && cs[0] == '+' {
        start = 1;
    }
    let ghost d = cs@.subrange(start as int, n as int);
    proof {
        if n > 0 && cs@[0] == '+' {
            assert(d =~= s@.drop_first());
        } else {
            assert(d =~= s@);
        }
    }
    if start >= n {
        return None;
    }
    let mut i: usize = start;
    let mut acc: u32 = 0;
    let mut overflow: bool = false;
    while i < n
        invariant
            cs@ == s@,
            n == cs@.len(),
            start < n,
            start <= i <= n,
            d == cs@.subrange(start as int, n as int),
            d == without_plus(s@),
            forall|j: int| start <= j < i ==> is_ascii_digit(#[trigger] cs@[j]),
            !overflow ==> acc == digits_value(cs@.subrange(start as int, i as int)),
            overflow ==> digits_value(cs@.subrange(start as int, i as int)) > u32::MAX,
        decreases n - i,
    {
        let c = cs[i];
        if !('0' <= c && c <= '9') {
            proof {
                assert(d[i - start] == c);
                assert(!is_ascii_digit(d[i - start]));
            }
            return None;
        }
        let digit: u32 = (c as u32) - ('0' as u32);
        let ghost prev = cs@.subrange(start as int, i as int);
        let ghost next = cs@.subrange(start as int, i + 1);
        proof {
            assert(next.drop_last() =~= prev);
            assert(next.last() == c);
            assert(digits_value(next) == digits_value(prev) * 10 + digit);
        }
        if !overflow {
            match acc.checked_mul(10) {
                Some(m) => match m.checked_add(digit) {
                    Some(v) => {
                        acc = v;
                    },
                    None => {
                        overflow = true;
                    },
                },
                None => {
                    overflow = true;
                },
            }
        }
        i = i + 1;
    }
    proof {
        assert(cs@.subrange(start as int, n as int) =~= d);
        assert forall|j: int| 0 <= j < d.len() implies is_ascii_digit(#[trigger] d[j]) by {
            assert(d[j] == cs@[start + j]);
        }
    }
    if overflow {
        None
    } else {
        Some(acc)
    }
}

/// `n` occurs in `h` at char index `i`.
pub open spec fn infix_at(h: Seq<char>, n: Seq<char>, i: int) -> bool {
    0 <= i && i + n.len() <= h.len() && h.subrange(i, i + n.len()) == n
}

/// `n` occurs somewhere in `h`.
pub open spec fn has_infix(h: Seq<char>, n: Seq<char>) -> bool {
    exists|i: int| #[trigger] infix_at(h, n, i)
}

/// Whether `needle` occurs in `hay`, as `str::contains` tells.
pub fn str_contains(hay: &str, needle: &str) -> (r: bool)
    ensures
        r == has_infix(hay@, needle@),
{
    let h = text_chars(hay);
    let nd = text_chars(needle);
    let hn = h.len();
    let nn = nd.len();
    if nn > hn {
        return false;
    }
    let mut i: usize = 0;
    while i <= hn - nn
        invariant
            h@ == hay@,
            nd@ == needle@,
            hn == h@.len(),
            nn == nd@.len(),
            nn <= hn,
            i <= hn - nn + 1,
            forall|j: int| 0 <= j < i ==> !infix_at(hay@, needle@, j),
        decreases hn - nn + 1 - i,
    {
        let mut k: usize = 0;
        let mut same: bool = true;
        while k < nn
            invariant
                h@ == hay@,
                nd@ == needle@,
                hn == h@.len(),
                nn == nd@.len(),
                i + nn <= hn,
                k <= nn,
                same == (forall|m: int| 0 <= m < k ==> h@[i + m] == nd@[m]),
            decreases nn - k,
        {
            if h[i + k] != nd[k] {
                same = false;
            }
            k = k + 1;
        }
        if same {
            assert(h@.subrange(i as int, i + nn) =~= nd@);
            assert(infix_at(hay@, needle@, i as int));
            return true;
        }
        proof {
            assert(!infix_at(hay@, needle@, i as int)) by {
                if infix_at(hay@, needle@, i as int) {
                    let m = choose|m: int| 0 <= m < nn && h@[i + m] != nd@[m];
                    assert(h@.subrange(i as int, i + nn)[m] == h@[i + m]);
                }
            }
        }
        i = i + 1;
    }
    proof {
        assert forall|j: int| !infix_at(hay@, needle@, j) by {
            if 0 <= j && j < i {
            }
        }
    }
    false
}

} // verus!
