use vstd::prelude::*;

use crate::common_parsers::{
    identifier_at, identifier_failure, spec_identifier, spec_text_list1, strs_view, text_list1_at,
};
use crate::text::{keyword_at, match_keyword, skip_ws, ws_end};
use crate::types::{agrees, fail, nest, span_agrees, ErrModel, ErrorKind, Parse, ParseError, RuleName, Span};

verus! {

/// The table to read and the columns to project from it.
#[derive(Clone, Debug, Default, PartialEq, Eq, Hash)]
pub struct SelectStatement {
    pub table: String,
    pub columns: Vec<String>,
}

impl View for SelectStatement {
    type V = (Seq<char>, Seq<Seq<char>>);

    open spec fn view(&self) -> (Seq<char>, Seq<Seq<char>>) {
        (self.table@, strs_view(self.columns@))
    }
}

pub open spec fn kw_select() -> Seq<char> {
    seq!['s', 'e', 'l', 'e', 'c', 't']
}

pub open spec fn kw_from() -> Seq<char> {
    seq!['f', 'r', 'o', 'm']
}

/// `SELECT <names>`: the keyword, whitespace, a non-empty list of identifiers
/// separated by a comma and optional whitespace.
pub open spec fn spec_select_columns(s: Seq<char>, i: int) -> Option<(Seq<Seq<char>>, int)> {
    if keyword_at(s, i, kw_select()) {
        let a = ws_end(s, i + 6);
        if a > i + 6 {
            spec_text_list1(s, a, false, false, false)
        } else {
            None
        }
    } else {
        None
    }
}

/// ` FROM <name>`: whitespace on both sides of the keyword, then the table.
pub open spec fn spec_from_table(s: Seq<char>, i: int) -> Option<(Seq<char>, int)> {
    let a = ws_end(s, i);
    if a > i && keyword_at(s, a, kw_from()) {
        let b = ws_end(s, a + 4);
        if b > a + 4 {
            spec_identifier(s, b)
        } else {
            None
        }
    } else {
        None
    }
}

/// A whole select statement at `i`.
pub open spec fn spec_select(s: Seq<char>, i: int) -> Option<((Seq<char>, Seq<Seq<char>>), int)> {
    match spec_select_columns(s, i) {
        Some((cols, e)) => match spec_from_table(s, e) {
            Some((t, k)) => Some(((t, cols), k)),
            None => None,
        },
        None => None,
    }
}

/// How reading `SELECT <names>` at `i` fails.
pub open spec fn select_columns_failure(s: Seq<char>, i: int) -> ErrModel {
    if !keyword_at(s, i, kw_select()) {
        fail(ErrorKind::TokenMismatch, i)
    } else if ws_end(s, i + 6) == i + 6 {
        fail(ErrorKind::TokenMismatch, i + 6)
    } else {
        nest(RuleName::ColumnName, identifier_failure(s, ws_end(s, i + 6)))
    }
}

/// How reading ` FROM <name>` at `i` fails.
pub open spec fn from_table_failure(s: Seq<char>, i: int) -> ErrModel {
    let a = ws_end(s, i);
    if a == i || !keyword_at(s, a, kw_from()) {
        fail(ErrorKind::TokenMismatch, a)
    } else {
        let b = ws_end(s, a + 4);
        if b == a + 4 {
            fail(ErrorKind::TokenMismatch, b)
        } else {
            nest(RuleName::TableName, identifier_failure(s, b))
        }
    }
}

/// How reading a select statement at `i` fails.
pub open spec fn select_failure(s: Seq<char>, i: int) -> ErrModel {
    match spec_select_columns(s, i) {
        None => select_columns_failure(s, i),
        Some((_, e)) => from_table_failure(s, e),
    }
}

pub fn select_columns_at(s: &Vec<char>, pos: usize) -> (r: Result<(Vec<String>, usize), ParseError>)
    requires
        pos <= s@.len(),
    ensures
        match spec_select_columns(s@, pos as int) {
            Some((v, e)) => r matches Ok((x, p)) && strs_view(x@) == v && p == e,
            None => r matches Err(err) && err.offset <= s@.len(),
        },
        r matches Ok((_, e)) ==> pos < e <= s@.len(),
        r matches Err(err) ==> err@ == select_columns_failure(s@, pos as int),
{
    let select_kw: &[char] = &['s', 'e', 'l', 'e', 'c', 't'];
    assert(select_kw@ == kw_select() && kw_select().len() == 6);
    if !match_keyword(s, pos, select_kw) {
        return Err(ParseError::new(ErrorKind::TokenMismatch, pos));
    }
    let a = skip_ws(s, pos + 6);
    if a == pos + 6 {
        return Err(ParseError::new(ErrorKind::TokenMismatch, a));
    }
    match text_list1_at(s, a, false, false, false) {
        Ok(x) => Ok(x),
        Err(err) => Err(err.within(RuleName::ColumnName)),
    }
}

pub fn from_table_at(s: &Vec<char>, pos: usize) -> (r: Result<(String, usize), ParseError>)
    requires
        pos <= s@.len(),
    ensures
        agrees(s@, r, spec_from_table(s@, pos as int)),
        r matches Ok((_, e)) ==> pos < e <= s@.len(),
        r matches Err(err) ==> err@ == from_table_failure(s@, pos as int),
{
    let from_kw: &[char] = &['f', 'r', 'o', 'm'];
    assert(from_kw@ == kw_from() && kw_from().len() == 4);
    let a = skip_ws(s, pos);
    if a == pos || !match_keyword(s, a, from_kw) {
        return Err(ParseError::new(ErrorKind::TokenMismatch, a));
    }
    let b = skip_ws(s, a + 4);
    if b == a + 4 {
        return Err(ParseError::new(ErrorKind::TokenMismatch, b));
    }
    match identifier_at(s, b) {
        Ok(x) => Ok(x),
        Err(err) => Err(err.within(RuleName::TableName)),
    }
}

pub fn select_at(s: &Vec<char>, pos: usize) -> (r: Result<(SelectStatement, usize), ParseError>)
    requires
        pos <= s@.len(),
    ensures
        agrees(s@, r, spec_select(s@, pos as int)),
        r matches Ok((_, e)) ==> pos < e <= s@.len(),
        r matches Err(err) ==> err@ == select_failure(s@, pos as int),
{
    let (columns, e) = match select_columns_at(s, pos) {
        Ok(x) => x,
        Err(err) => {
            return Err(err);
        },
    };
    match from_table_at(s, e) {
        Ok((table, k)) => Ok((SelectStatement { table, columns }, k)),
        Err(err) => Err(err),
    }
}

/// Reads ` FROM <name>`; the value is the table's name.
pub fn parse_table_name(i: Span) -> (r: Result<(Span, String), ParseError>)
    requires
        i.wf(),
    ensures
        span_agrees(i, r, spec_from_table(i.text@, i.offset as int)),
        r matches Err(err) ==> err@ == from_table_failure(i.text@, i.offset as int),
{
    match from_table_at(&i.text, i.offset) {
        Ok((v, e)) => Ok((Span { text: i.text, offset: e }, v)),
        Err(err) => Err(err),
    }
}

/// Reads `SELECT <names>`; the value is the list of names.
pub fn parse_column_names(i: Span) -> (r: Result<(Span, Vec<String>), ParseError>)
    requires
        i.wf(),
    ensures
        match spec_select_columns(i.text@, i.offset as int) {
            Some((v, e)) => r matches Ok((rest, x)) && strs_view(x@) == v && rest.text == i.text && rest.offset == e,
            None => r matches Err(err) && err.offset <= i.text@.len(),
        },
        r matches Err(err) ==> err@ == select_columns_failure(i.text@, i.offset as int),
{
    match select_columns_at(&i.text, i.offset) {
        Ok((v, e)) => Ok((Span { text: i.text, offset: e }, v)),
        Err(err) => Err(err),
    }
}

impl Parse for SelectStatement {
    open spec fn grammar(s: Seq<char>, i: int) -> Option<(<SelectStatement as View>::V, int)> {
        spec_select(s, i)
    }

    open spec fn failure(s: Seq<char>, i: int) -> ErrModel {
        select_failure(s, i)
    }

    fn parse(i: Span) -> (r: Result<(Span, SelectStatement), ParseError>) {
        match select_at(&i.text, i.offset) {
            Ok((v, e)) => Ok((Span { text: i.text, offset: e }, v)),
            Err(err) => Err(err),
        }
    }
}

} // verus!
