use vstd::prelude::*;

use crate::text::{alnum_end, find_char, scan_to, skip_alnum, skip_ws, string_of, ws_end};
use crate::types::{agrees, fail, span_agrees, ErrModel, ErrorKind, ParseError, Span};

verus! {

/// An identifier at `i`: the longest non-empty run of alphanumeric characters,
/// with the position after it.
pub open spec fn spec_identifier(s: Seq<char>, i: int) -> Option<(Seq<char>, int)> {
    let e = alnum_end(s, i);
    if e > i {
        Some((s.subrange(i, e), e))
    } else {
        None
    }
}

/// A literal quoted by `q` at `i`: the characters up to the next `q`, with the
/// position after that closing `q`.
pub open spec fn spec_quoted(s: Seq<char>, i: int, q: char) -> Option<(Seq<char>, int)> {
    if 0 <= i < s.len() && s[i] == q {
        let e = find_char(s, i + 1, q);
        if e < s.len() {
            Some((s.subrange(i + 1, e), e + 1))
        } else {
            None
        }
    } else {
        None
    }
}

/// A literal in single quotes or, failing that, in double quotes.
pub open spec fn spec_literal(s: Seq<char>, i: int) -> Option<(Seq<char>, int)> {
    match spec_quoted(s, i, '\'') {
        Some(r) => Some(r),
        None => spec_quoted(s, i, '"'),
    }
}

/// How reading an identifier at `i` fails: no alphanumeric character there.
pub open spec fn identifier_failure(s: Seq<char>, i: int) -> ErrModel {
    fail(ErrorKind::EmptyIdentifier, i)
}

/// How reading a literal quoted by `q` at `i` fails: unterminated (at the end of
/// the text) when it opens there, a token mismatch at `i` otherwise.
pub open spec fn quoted_failure(s: Seq<char>, i: int, q: char) -> ErrModel {
    if 0 <= i < s.len() && s[i] == q {
        fail(ErrorKind::UnterminatedLiteral, find_char(s, i + 1, q))
    } else {
        fail(ErrorKind::TokenMismatch, i)
    }
}

/// A literal fails as its double-quoted form, the last one tried.
pub open spec fn literal_failure(s: Seq<char>, i: int) -> ErrModel {
    quoted_failure(s, i, '"')
}

pub open spec fn text_item_failure(s: Seq<char>, i: int, lit: bool) -> ErrModel {
    if lit {
        literal_failure(s, i)
    } else {
        identifier_failure(s, i)
    }
}

/// Neither quote character.
pub fn is_not_quote(c: char) -> (r: bool)
    ensures
        r == (c != '\'' && c != '"'),
{
    c != '\'' && c != '"'
}

pub fn identifier_at(s: &Vec<char>, pos: usize) -> (r: Result<(String, usize), ParseError>)
    requires
        pos <= s@.len(),
    ensures
        agrees(s@, r, spec_identifier(s@, pos as int)),
        r matches Ok((_, e)) ==> pos < e <= s@.len(),
        r matches Err(err) ==> err@ == identifier_failure(s@, pos as int),
{
    let e = skip_alnum(s, pos);
    if e > pos {
        Ok((string_of(s, pos, e), e))
    } else {
        Err(ParseError::new(ErrorKind::EmptyIdentifier, pos))
    }
}

pub fn quoted_at(s: &Vec<char>, pos: usize, q: char) -> (r: Result<(String, usize), ParseError>)
    requires
        pos <= s@.len(),
    ensures
        agrees(s@, r, spec_quoted(s@, pos as int, q)),
        r matches Ok((_, e)) ==> pos < e <= s@.len(),
        r matches Err(err) ==> err@ == quoted_failure(s@, pos as int, q),
{
    if pos < s.len() && s[pos] == q {
        let e = scan_to(s, pos + 1, q);
        if e < s.len() {
            Ok((string_of(s, pos + 1, e), e + 1))
        } else {
            Err(ParseError::new(ErrorKind::UnterminatedLiteral, e))
        }
    } else {
        Err(ParseError::new(ErrorKind::TokenMismatch, pos))
    }
}

pub fn literal_at(s: &Vec<char>, pos: usize) -> (r: Result<(String, usize), ParseError>)
    requires
        pos <= s@.len(),
    ensures
        agrees(s@, r, spec_literal(s@, pos as int)),
        r matches Ok((_, e)) ==> pos < e <= s@.len(),
        r matches Err(err) ==> err@ == literal_failure(s@, pos as int),
{
    match quoted_at(s, pos, '\'') {
        Ok(x) => Ok(x),
        Err(_) => quoted_at(s, pos, '"'),
    }
}

/// Reads an unquoted identifier: the longest non-empty run of alphanumeric characters.
pub fn identifier(i: Span) -> (r: Result<(Span, String), ParseError>)
    requires
        i.wf(),
    ensures
        span_agrees(i, r, spec_identifier(i.text@, i.offset as int)),
        r matches Err(err) ==> err@ == identifier_failure(i.text@, i.offset as int),
{
    match identifier_at(&i.text, i.offset) {
        Ok((v, e)) => Ok((Span { text: i.text, offset: e }, v)),
        Err(err) => Err(err),
    }
}

/// Reads a literal in single quotes; the value is what stands between them.
pub fn parse_single_quote_str(i: Span) -> (r: Result<(Span, String), ParseError>)
    requires
        i.wf(),
    ensures
        span_agrees(i, r, spec_quoted(i.text@, i.offset as int, '\'')),
        r matches Err(err) ==> err@ == quoted_failure(i.text@, i.offset as int, '\''),
{
    match quoted_at(&i.text, i.offset, '\'') {
        Ok((v, e)) => Ok((Span { text: i.text, offset: e }, v)),
        Err(err) => Err(err),
    }
}

/// Reads a literal in double quotes; the value is what stands between them.
pub fn parse_double_quote_str(i: Span) -> (r: Result<(Span, String), ParseError>)
    requires
        i.wf(),
    ensures
        span_agrees(i, r, spec_quoted(i.text@, i.offset as int, '"')),
        r matches Err(err) ==> err@ == quoted_failure(i.text@, i.offset as int, '"'),
{
    match quoted_at(&i.text, i.offset, '"') {
        Ok((v, e)) => Ok((Span { text: i.text, offset: e }, v)),
        Err(err) => Err(err),
    }
}

/// Reads a literal in single or double quotes.
pub fn parse_string(i: Span) -> (r: Result<(Span, String), ParseError>)
    requires
        i.wf(),
    ensures
        span_agrees(i, r, spec_literal(i.text@, i.offset as int)),
        r matches Err(err) ==> err@ == literal_failure(i.text@, i.offset as int),
{
    match literal_at(&i.text, i.offset) {
        Ok((v, e)) => Ok((Span { text: i.text, offset: e }, v)),
        Err(err) => Err(err),
    }
}

/// A comma separator at `i`: optional whitespace before the comma when `lead`,
/// then whitespace after it, at least one character of it when `need_space`.
/// Gives the position after the separator.
pub open spec fn spec_comma(s: Seq<char>, i: int, lead: bool, need_space: bool) -> Option<int> {
    let a = if lead { ws_end(s, i) } else { i };
    if 0 <= a < s.len() && s[a] == ',' {
        let b = ws_end(s, a + 1);
        if need_space && b == a + 1 {
            None
        } else {
            Some(b)
        }
    } else {
        None
    }
}

pub fn comma_at(s: &Vec<char>, pos: usize, lead: bool, need_space: bool) -> (r: Option<usize>)
    requires
        pos <= s@.len(),
    ensures
        match r {
            Some(x) => spec_comma(s@, pos as int, lead, need_space) == Some(x as int) && pos < x <= s@.len(),
            None => spec_comma(s@, pos as int, lead, need_space) is None,
        },
{
    let a = if lead { skip_ws(s, pos) } else { pos };
    if a < s.len() && s[a] == ',' {
        let b = skip_ws(s, a + 1);
        if need_space && b == a + 1 {
            None
        } else {
            Some(b)
        }
    } else {
        None
    }
}

/// A list item of text: a quoted literal when `lit`, an identifier otherwise.
pub open spec fn spec_text_item(s: Seq<char>, i: int, lit: bool) -> Option<(Seq<char>, int)> {
    if lit {
        spec_literal(s, i)
    } else {
        spec_identifier(s, i)
    }
}

/// The items that follow a first one, each after a separator: as many as stand
/// there, stopping before a separator that no item follows.
pub open spec fn spec_text_rest(s: Seq<char>, i: int, lead: bool, need_space: bool, lit: bool) -> (Seq<Seq<char>>, int)
    decreases s.len() - i,
{
    match spec_comma(s, i, lead, need_space) {
        Some(j) => match spec_text_item(s, j, lit) {
            Some((v, k)) => if i < k <= s.len() {
                let (vs, e) = spec_text_rest(s, k, lead, need_space, lit);
                (seq![v] + vs, e)
            } else {
                (seq![], i)
            },
            None => (seq![], i),
        },
        None => (seq![], i),
    }
}

pub open spec fn strs_view(v: Seq<String>) -> Seq<Seq<char>> {
    v.map_values(|x: String| x@)
}

pub fn text_item_at(s: &Vec<char>, pos: usize, lit: bool) -> (r: Result<(String, usize), ParseError>)
    requires
        pos <= s@.len(),
    ensures
        agrees(s@, r, spec_text_item(s@, pos as int, lit)),
        r matches Ok((_, e)) ==> pos < e <= s@.len(),
        r matches Err(err) ==> err@ == text_item_failure(s@, pos as int, lit),
{
    if lit {
        literal_at(s, pos)
    } else {
        identifier_at(s, pos)
    }
}

pub fn text_rest_at(s: &Vec<char>, pos: usize, lead: bool, need_space: bool, lit: bool, acc: Vec<String>) -> (r: (Vec<String>, usize))
    requires
        pos <= s@.len(),
    ensures
        strs_view(r.0@) == strs_view(acc@) + spec_text_rest(s@, pos as int, lead, need_space, lit).0,
        r.1 as int == spec_text_rest(s@, pos as int, lead, need_space, lit).1,
        pos <= r.1 <= s@.len(),
{
    let mut out = acc;
    let mut cur = pos;
    loop
        invariant
            pos <= cur <= s@.len(),
            strs_view(out@) + spec_text_rest(s@, cur as int, lead, need_space, lit).0
                == strs_view(acc@) + spec_text_rest(s@, pos as int, lead, need_space, lit).0,
            spec_text_rest(s@, cur as int, lead, need_space, lit).1 == spec_text_rest(s@, pos as int, lead, need_space, lit).1,
        ensures
            pos <= cur <= s@.len(),
            strs_view(out@) == strs_view(acc@) + spec_text_rest(s@, pos as int, lead, need_space, lit).0,
            cur as int == spec_text_rest(s@, pos as int, lead, need_space, lit).1,
        decreases s@.len() - cur,
    {
        let j = match comma_at(s, cur, lead, need_space) {
            Some(j) => j,
            None => {
                assert(spec_text_rest(s@, cur as int, lead, need_space, lit) == (Seq::<Seq<char>>::empty(), cur as int));
                assert(strs_view(out@) + Seq::<Seq<char>>::empty() =~= strs_view(out@));
                break;
            },
        };
        match text_item_at(s, j, lit) {
            Ok((v, k)) => {
                let ghost old_out = out@;
                out.push(v);
                assert(strs_view(out@) =~= strs_view(old_out).push(v@));
                assert(strs_view(old_out) + spec_text_rest(s@, cur as int, lead, need_space, lit).0
                    =~= strs_view(out@) + spec_text_rest(s@, k as int, lead, need_space, lit).0);
                cur = k;
            },
            Err(_) => {
                assert(spec_text_rest(s@, cur as int, lead, need_space, lit) == (Seq::<Seq<char>>::empty(), cur as int));
                assert(strs_view(out@) + Seq::<Seq<char>>::empty() =~= strs_view(out@));
                break;
            },
        }
    }
    (out, cur)
}

/// A possibly empty list of text items: none when no item stands at `i`.
pub open spec fn spec_text_list0(s: Seq<char>, i: int, lead: bool, need_space: bool, lit: bool) -> (Seq<Seq<char>>, int) {
    match spec_text_item(s, i, lit) {
        Some((v, k)) => {
            let (vs, e) = spec_text_rest(s, k, lead, need_space, lit);
            (seq![v] + vs, e)
        },
        None => (seq![], i),
    }
}

/// A non-empty list of text items.
pub open spec fn spec_text_list1(s: Seq<char>, i: int, lead: bool, need_space: bool, lit: bool) -> Option<(Seq<Seq<char>>, int)> {
    match spec_text_item(s, i, lit) {
        Some((v, k)) => {
            let (vs, e) = spec_text_rest(s, k, lead, need_space, lit);
            Some((seq![v] + vs, e))
        },
        None => None,
    }
}

pub fn text_list1_at(s: &Vec<char>, pos: usize, lead: bool, need_space: bool, lit: bool) -> (r: Result<(Vec<String>, usize), ParseError>)
    requires
        pos <= s@.len(),
    ensures
        match spec_text_list1(s@, pos as int, lead, need_space, lit) {
            Some((v, e)) => r matches Ok((x, p)) && strs_view(x@) == v && p == e,
            None => r matches Err(err) && err.offset <= s@.len(),
        },
        r matches Ok((_, e)) ==> pos < e <= s@.len(),
        r matches Err(err) ==> err@ == text_item_failure(s@, pos as int, lit),
{
    match text_item_at(s, pos, lit) {
        Ok((v, k)) => {
            let ghost vv = v@;
            let mut acc: Vec<String> = Vec::new();
            acc.push(v);
            assert(strs_view(acc@) =~= seq![vv]);
            Ok(text_rest_at(s, k, lead, need_space, lit, acc))
        },
        Err(err) => Err(err),
    }
}

pub fn text_list0_at(s: &Vec<char>, pos: usize, lead: bool, need_space: bool, lit: bool) -> (r: (Vec<String>, usize))
    requires
        pos <= s@.len(),
    ensures
        strs_view(r.0@) == spec_text_list0(s@, pos as int, lead, need_space, lit).0,
        r.1 as int == spec_text_list0(s@, pos as int, lead, need_space, lit).1,
        pos <= r.1 <= s@.len(),
{
    match text_list1_at(s, pos, lead, need_space, lit) {
        Ok(x) => x,
        Err(_) => {
            assert(strs_view(Seq::<String>::empty()) =~= Seq::<Seq<char>>::empty());
            (Vec::new(), pos)
        },
    }
}

/// A quoted literal holds every character up to the next delimiter of its own
/// kind: commas, spaces and the other quote among them.
pub proof fn literal_content(s: Seq<char>, i: int, j: int, q: char)
    requires
        0 <= i < j < s.len(),
        s[i] == q,
        s[j] == q,
        forall|k: int| i < k < j ==> s[k] != q,
    ensures
        spec_quoted(s, i, q) == Some((s.subrange(i + 1, j), j + 1)),
{
    lemma_find_char(s, i + 1, j, q);
}

/// A literal opened by `q` with no further `q` in the text is refused.
pub proof fn literal_unterminated(s: Seq<char>, i: int, q: char)
    requires
        0 <= i < s.len(),
        forall|k: int| i < k < s.len() ==> s[k] != q,
    ensures
        spec_quoted(s, i, q) is None,
{
    lemma_find_char(s, i + 1, s.len() as int, q);
}

proof fn lemma_find_char(s: Seq<char>, i: int, j: int, q: char)
    requires
        0 <= i <= j <= s.len(),
        j < s.len() ==> s[j] == q,
        forall|k: int| i <= k < j ==> s[k] != q,
    ensures
        find_char(s, i, q) == j,
    decreases j - i,
{
    if i < j {
        lemma_find_char(s, i + 1, j, q);
    }
}

} // verus!
