use vstd::prelude::*;

use crate::common_parsers::{
    identifier_at, identifier_failure, spec_identifier, spec_text_list0, spec_text_list1, strs_view,
    text_item_failure, text_list0_at, text_list1_at,
};
use crate::text::{keyword_at, match_keyword, skip_ws, ws_end};
use crate::types::{agrees, fail, nest, span_agrees, ErrModel, ErrorKind, Parse, ParseError, RuleName, Span};

verus! {

/// A row to insert: the table, the columns named (possibly none) and the values.
/// The number of columns and of values are not held to each other.
#[derive(Clone, Debug, Default, PartialEq, Eq, Hash)]
pub struct InsertStatement {
    pub table: String,
    pub columns: Vec<String>,
    pub values: Vec<String>,
}

impl View for InsertStatement {
    type V = (Seq<char>, Seq<Seq<char>>, Seq<Seq<char>>);

    open spec fn view(&self) -> (Seq<char>, Seq<Seq<char>>, Seq<Seq<char>>) {
        (self.table@, strs_view(self.columns@), strs_view(self.values@))
    }
}

pub open spec fn kw_insert() -> Seq<char> {
    seq!['i', 'n', 's', 'e', 'r', 't']
}

pub open spec fn kw_into() -> Seq<char> {
    seq!['i', 'n', 't', 'o']
}

pub open spec fn kw_values() -> Seq<char> {
    seq!['v', 'a', 'l', 'u', 'e', 's']
}

/// `INSERT INTO <name>`, keywords in any letter case.
pub open spec fn spec_insert_table(s: Seq<char>, i: int) -> Option<(Seq<char>, int)> {
    if keyword_at(s, i, kw_insert()) {
        let a = ws_end(s, i + 6);
        if a > i + 6 && keyword_at(s, a, kw_into()) {
            let b = ws_end(s, a + 4);
            if b > a + 4 {
                spec_identifier(s, b)
            } else {
                None
            }
        } else {
            None
        }
    } else {
        None
    }
}

/// An optional parenthesised list of column names; where none stands at `i`,
/// the list is empty and nothing is read.
pub open spec fn spec_column_names(s: Seq<char>, i: int) -> (Seq<Seq<char>>, int) {
    if 0 <= i < s.len() && s[i] == '(' {
        let (names, e) = spec_text_list0(s, ws_end(s, i + 1), true, false, false);
        let c = ws_end(s, e);
        if 0 <= c < s.len() && s[c] == ')' {
            (names, c + 1)
        } else {
            (seq![], i)
        }
    } else {
        (seq![], i)
    }
}

/// `VALUES (<literals>)`, at least one literal, whitespace optional around the
/// parentheses and the commas.
pub open spec fn spec_values(s: Seq<char>, i: int) -> Option<(Seq<Seq<char>>, int)> {
    if keyword_at(s, i, kw_values()) {
        let a = ws_end(s, i + 6);
        if 0 <= a < s.len() && s[a] == '(' {
            match spec_text_list1(s, ws_end(s, a + 1), true, false, true) {
                Some((vals, e)) => {
                    let c = ws_end(s, e);
                    if 0 <= c < s.len() && s[c] == ')' {
                        Some((vals, c + 1))
                    } else {
                        None
                    }
                },
                None => None,
            }
        } else {
            None
        }
    } else {
        None
    }
}

/// A whole insert statement at `i`.
pub open spec fn spec_insert(s: Seq<char>, i: int) -> Option<((Seq<char>, Seq<Seq<char>>, Seq<Seq<char>>), int)> {
    match spec_insert_table(s, i) {
        Some((t, e)) => {
            let (cols, b) = spec_column_names(s, ws_end(s, e));
            match spec_values(s, ws_end(s, b)) {
                Some((vals, k)) => Some(((t, cols, vals), k)),
                None => None,
            }
        },
        None => None,
    }
}

/// How reading `INSERT INTO <name>` at `i` fails.
pub open spec fn insert_table_failure(s: Seq<char>, i: int) -> ErrModel {
    if !keyword_at(s, i, kw_insert()) {
        fail(ErrorKind::TokenMismatch, i)
    } else {
        let a = ws_end(s, i + 6);
        if a == i + 6 || !keyword_at(s, a, kw_into()) {
            fail(ErrorKind::TokenMismatch, a)
        } else {
            let b = ws_end(s, a + 4);
            if b == a + 4 {
                fail(ErrorKind::TokenMismatch, b)
            } else {
                nest(RuleName::TableName, identifier_failure(s, b))
            }
        }
    }
}

/// How reading `VALUES (...)` at `i` fails.
pub open spec fn values_failure(s: Seq<char>, i: int) -> ErrModel {
    if !keyword_at(s, i, kw_values()) {
        nest(RuleName::Values, fail(ErrorKind::TokenMismatch, i))
    } else {
        let a = ws_end(s, i + 6);
        if !(0 <= a < s.len() && s[a] == '(') {
            nest(RuleName::Values, fail(ErrorKind::TokenMismatch, a))
        } else {
            let b = ws_end(s, a + 1);
            match spec_text_list1(s, b, true, false, true) {
                None => nest(RuleName::Values, text_item_failure(s, b, true)),
                Some((_, e)) => nest(RuleName::Values, fail(ErrorKind::TokenMismatch, ws_end(s, e))),
            }
        }
    }
}

/// How reading an insert statement at `i` fails.
pub open spec fn insert_failure(s: Seq<char>, i: int) -> ErrModel {
    match spec_insert_table(s, i) {
        None => insert_table_failure(s, i),
        Some((_, e)) => values_failure(s, ws_end(s, spec_column_names(s, ws_end(s, e)).1)),
    }
}

pub fn insert_table_at(s: &Vec<char>, pos: usize) -> (r: Result<(String, usize), ParseError>)
    requires
        pos <= s@.len(),
    ensures
        agrees(s@, r, spec_insert_table(s@, pos as int)),
        r matches Ok((_, e)) ==> pos < e <= s@.len(),
        r matches Err(err) ==> err@ == insert_table_failure(s@, pos as int),
{
    let insert_kw: &[char] = &['i', 'n', 's', 'e', 'r', 't'];
    let into_kw: &[char] = &['i', 'n', 't', 'o'];
    assert(insert_kw@ == kw_insert() && into_kw@ == kw_into());
    assert(kw_insert().len() == 6 && kw_into().len() == 4);
    if !match_keyword(s, pos, insert_kw) {
        return Err(ParseError::new(ErrorKind::TokenMismatch, pos));
    }
    let a = skip_ws(s, pos + 6);
    if a == pos + 6 || !match_keyword(s, a, into_kw) {
        return Err(ParseError::new(ErrorKind::TokenMismatch, a));
    }
    let b = skip_ws(s, a + 4);
    if b == a + 4 {
        return Err(ParseError::new(ErrorKind::TokenMismatch, b));
    }
    match identifier_at(s, b) {
        Ok(x) => Ok(x),
        Err(err) => Err(err.within(RuleName::TableName)),
    }
}

pub fn column_names_at(s: &Vec<char>, pos: usize) -> (r: (Vec<String>, usize))
    requires
        pos <= s@.len(),
    ensures
        strs_view(r.0@) == spec_column_names(s@, pos as int).0,
        r.1 as int == spec_column_names(s@, pos as int).1,
        pos <= r.1 <= s@.len(),
{
    if pos < s.len() && s[pos] == '(' {
        let (names, e) = text_list0_at(s, skip_ws(s, pos + 1), true, false, false);
        let c = skip_ws(s, e);
        if c < s.len() && s[c] == ')' {
            return (names, c + 1);
        }
    }
    assert(strs_view(Seq::<String>::empty()) =~= Seq::<Seq<char>>::empty());
    (Vec::new(), pos)
}

pub fn values_at(s: &Vec<char>, pos: usize) -> (r: Result<(Vec<String>, usize), ParseError>)
    requires
        pos <= s@.len(),
    ensures
        match spec_values(s@, pos as int) {
            Some((v, e)) => r matches Ok((x, p)) && strs_view(x@) == v && p == e,
            None => r matches Err(err) && err.offset <= s@.len(),
        },
        r matches Ok((_, e)) ==> pos < e <= s@.len(),
        r matches Err(err) ==> err@ == values_failure(s@, pos as int),
{
    let values_kw: &[char] = &['v', 'a', 'l', 'u', 'e', 's'];
    assert(values_kw@ == kw_values() && kw_values().len() == 6);
    if !match_keyword(s, pos, values_kw) {
        return Err(ParseError::new(ErrorKind::TokenMismatch, pos).within(RuleName::Values));
    }
    let a = skip_ws(s, pos + 6);
    if !(a < s.len() && s[a] == '(') {
        return Err(ParseError::new(ErrorKind::TokenMismatch, a).within(RuleName::Values));
    }
    let (vals, e) = match text_list1_at(s, skip_ws(s, a + 1), true, false, true) {
        Ok(x) => x,
        Err(err) => {
            return Err(err.within(RuleName::Values));
        },
    };
    let c = skip_ws(s, e);
    if c < s.len() && s[c] == ')' {
        Ok((vals, c + 1))
    } else {
        Err(ParseError::new(ErrorKind::TokenMismatch, c).within(RuleName::Values))
    }
}

pub fn insert_at(s: &Vec<char>, pos: usize) -> (r: Result<(InsertStatement, usize), ParseError>)
    requires
        pos <= s@.len(),
    ensures
        agrees(s@, r, spec_insert(s@, pos as int)),
        r matches Ok((_, e)) ==> pos < e <= s@.len(),
        r matches Err(err) ==> err@ == insert_failure(s@, pos as int),
{
    let (table, e) = match insert_table_at(s, pos) {
        Ok(x) => x,
        Err(err) => {
            return Err(err);
        },
    };
    let (columns, b) = column_names_at(s, skip_ws(s, e));
    match values_at(s, skip_ws(s, b)) {
        Ok((values, k)) => Ok((InsertStatement { table, columns, values }, k)),
        Err(err) => Err(err),
    }
}

/// Reads `INSERT INTO <name>`; the value is the table's name.
pub fn parse_table_name(i: Span) -> (r: Result<(Span, String), ParseError>)
    requires
        i.wf(),
    ensures
        span_agrees(i, r, spec_insert_table(i.text@, i.offset as int)),
        r matches Err(err) ==> err@ == insert_table_failure(i.text@, i.offset as int),
{
    match insert_table_at(&i.text, i.offset) {
        Ok((v, e)) => Ok((Span { text: i.text, offset: e }, v)),
        Err(err) => Err(err),
    }
}

/// Reads an optional parenthesised list of column names; without one, the list
/// is empty and the span stays where it was.
pub fn parse_column_names(i: Span) -> (r: Result<(Span, Vec<String>), ParseError>)
    requires
        i.wf(),
    ensures
        r matches Ok((rest, x)) && strs_view(x@) == spec_column_names(i.text@, i.offset as int).0
            && rest.text == i.text && rest.offset == spec_column_names(i.text@, i.offset as int).1,
{
    let (v, e) = column_names_at(&i.text, i.offset);
    Ok((Span { text: i.text, offset: e }, v))
}

/// Reads `VALUES (<literals>)`.
pub fn parse_column_values(i: Span) -> (r: Result<(Span, Vec<String>), ParseError>)
    requires
        i.wf(),
    ensures
        match spec_values(i.text@, i.offset as int) {
            Some((v, e)) => r matches Ok((rest, x)) && strs_view(x@) == v && rest.text == i.text && rest.offset == e,
            None => r matches Err(err) && err.offset <= i.text@.len(),
        },
        r matches Err(err) ==> err@ == values_failure(i.text@, i.offset as int),
{
    match values_at(&i.text, i.offset) {
        Ok((v, e)) => Ok((Span { text: i.text, offset: e }, v)),
        Err(err) => Err(err),
    }
}

impl Parse for InsertStatement {
    open spec fn grammar(s: Seq<char>, i: int) -> Option<(<InsertStatement as View>::V, int)> {
        spec_insert(s, i)
    }

    open spec fn failure(s: Seq<char>, i: int) -> ErrModel {
        insert_failure(s, i)
    }

    fn parse(i: Span) -> (r: Result<(Span, InsertStatement), ParseError>) {
        match insert_at(&i.text, i.offset) {
            Ok((v, e)) => Ok((Span { text: i.text, offset: e }, v)),
            Err(err) => Err(err),
        }
    }
}

} // verus!
