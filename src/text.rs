use vstd::prelude::*;
use vstd::std_specs::iter::IteratorSpec;

verus! {

/// The characters that the grammar treats as whitespace: space, tab, carriage return, line feed.
pub open spec fn is_ws(c: char) -> bool {
    c == ' ' || c == '\t' || c == '\r' || c == '\n'
}

/// The first position at or after `i` that does not hold whitespace.
pub open spec fn ws_end(s: Seq<char>, i: int) -> int
    decreases s.len() - i,
{
    if 0 <= i < s.len() && is_ws(s[i]) {
        ws_end(s, i + 1)
    } else {
        i
    }
}

pub fn skip_ws(s: &Vec<char>, pos: usize) -> (r: usize)
    requires
        pos <= s@.len(),
    ensures
        r as int == ws_end(s@, pos as int),
        pos <= r <= s@.len(),
{
    let mut i: usize = pos;
    while i < s.len() && is_space(s[i])
        invariant
            pos <= i <= s@.len(),
            ws_end(s@, i as int) == ws_end(s@, pos as int),
        decreases s@.len() - i,
    {
        i = i + 1;
    }
    i
}

pub fn is_space(c: char) -> (r: bool)
    ensures
        r == is_ws(c),
{
    c == ' ' || c == '\t' || c == '\r' || c == '\n'
}


/// What `char::is_alphanumeric` answers for a character.
pub uninterp spec fn alphanumeric(c: char) -> bool;

/// Relies on `char::is_alphanumeric`: alphabetic or numeric in the Unicode sense.
#[verifier::external_body]
pub fn is_alnum(c: char) -> (r: bool)
    ensures
        r == alphanumeric(c),
{
    c.is_alphanumeric()
}

/// The end of the longest run of alphanumeric characters that starts at `i`.
pub open spec fn alnum_end(s: Seq<char>, i: int) -> int
    decreases s.len() - i,
{
    if 0 <= i < s.len() && alphanumeric(s[i]) {
        alnum_end(s, i + 1)
    } else {
        i
    }
}

pub fn skip_alnum(s: &Vec<char>, pos: usize) -> (r: usize)
    requires
        pos <= s@.len(),
    ensures
        r as int == alnum_end(s@, pos as int),
        pos <= r <= s@.len(),
{
    let mut i: usize = pos;
    while i < s.len() && is_alnum(s[i])
        invariant
            pos <= i <= s@.len(),
            alnum_end(s@, i as int) == alnum_end(s@, pos as int),
        decreases s@.len() - i,
    {
        i = i + 1;
    }
    i
}

/// The first position at or after `i` that holds `q`, or the length when there is none.
pub open spec fn find_char(s: Seq<char>, i: int, q: char) -> int
    decreases s.len() - i,
{
    if 0 <= i < s.len() && s[i] != q {
        find_char(s, i + 1, q)
    } else {
        i
    }
}

pub fn scan_to(s: &Vec<char>, pos: usize, q: char) -> (r: usize)
    requires
        pos <= s@.len(),
    ensures
        r as int == find_char(s@, pos as int, q),
        pos <= r <= s@.len(),
{
    let mut i: usize = pos;
    while i < s.len() && s[i] != q
        invariant
            pos <= i <= s@.len(),
            find_char(s@, i as int, q) == find_char(s@, pos as int, q),
        decreases s@.len() - i,
    {
        i = i + 1;
    }
    i
}

/// A character of the input matches a lower-case keyword character, ignoring ASCII case.
pub open spec fn ci_eq(c: char, k: char) -> bool {
    c == k || ('a' <= k <= 'z' && c as u32 + 32 == k as u32)
}

/// The keyword `kw` (written in lower case) stands at position `i`, in any letter case.
pub open spec fn keyword_at(s: Seq<char>, i: int, kw: Seq<char>) -> bool {
    0 <= i && i + kw.len() <= s.len() && forall|k: int| 0 <= k < kw.len() ==> ci_eq(#[trigger] s[i + k], kw[k])
}

pub fn match_keyword(s: &Vec<char>, pos: usize, kw: &[char]) -> (r: bool)
    requires
        pos <= s@.len(),
    ensures
        r == keyword_at(s@, pos as int, kw@),
        r ==> pos + kw@.len() <= s.len(),
{
    if kw.len() > s.len() - pos {
        return false;
    }
    let mut k: usize = 0;
    while k < kw.len()
        invariant
            pos + kw@.len() <= s@.len(),
            s@.len() == s.len(),
            0 <= k <= kw@.len(),
            forall|j: int| 0 <= j < k ==> ci_eq(#[trigger] s@[pos + j], kw@[j]),
        decreases kw@.len() - k,
    {
        let c = s[pos + k];
        let w = kw[k];
        let same = c == w || ('a' <= w && w <= 'z' && (c as u32) == (w as u32) - 32);
        if !same {
            assert(!ci_eq(s@[pos + k as int], kw@[k as int]));
            return false;
        }
        k = k + 1;
    }
    true
}

/// The characters of the text, in order.
pub fn chars_of(t: &str) -> (r: Vec<char>)
    ensures
        r@ == t@,
{
    let mut out: Vec<char> = Vec::new();
    broadcast use vstd::string::axiom_spec_iter;
    for c in it: t.chars()
        invariant
            it.seq() == t@,
            out@ == it.seq().take(it.index() as int),
    {
        out.push(c);
        assert(it.seq().take(it.index() + 1) == it.seq().take(it.index() as int).push(c));
    }
    out
}

/// Relies on `String::push`: appends one character.
#[verifier::external_body]
fn push_char(s: &mut String, c: char)
    ensures
        final(s)@ == old(s)@.push(c),
{
    s.push(c);
}

/// The text made of the characters `s[lo..hi]`.
pub fn string_of(s: &Vec<char>, lo: usize, hi: usize) -> (r: String)
    requires
        lo <= hi <= s@.len(),
    ensures
        r@ == s@.subrange(lo as int, hi as int),
{
    let mut out = String::new();
    let mut i: usize = lo;
    while i < hi
        invariant
            lo <= i <= hi <= s@.len(),
            out@ == s@.subrange(lo as int, i as int),
        decreases hi - i,
    {
        push_char(&mut out, s[i]);
        assert(s@.subrange(lo as int, i + 1) == s@.subrange(lo as int, i as int).push(s@[i as int]));
        i = i + 1;
    }
    out
}

} // verus!
