use vstd::prelude::*;

use crate::create_statement::{create_at, create_failure, spec_create, CreateStatement, SqlTypeInfo};
use crate::insert_statement::{insert_at, insert_failure, spec_insert, InsertStatement};
use crate::select_statement::{select_at, select_failure, spec_select, SelectStatement};
use crate::text::{skip_ws, ws_end};
use crate::types::{agrees, complete, fail, nest, ErrModel, ErrorKind, Parse, ParseError, RuleName, Span};

verus! {

/// Every statement the language has.
#[derive(Clone, Debug, PartialEq, Eq, Hash)]
pub enum SqlQuery {
    Select(SelectStatement),
    Insert(InsertStatement),
    Create(CreateStatement),
}

/// What a statement says, as plain values.
pub enum QueryModel {
    Select((Seq<char>, Seq<Seq<char>>)),
    Insert((Seq<char>, Seq<Seq<char>>, Seq<Seq<char>>)),
    Create((Seq<char>, Seq<(Seq<char>, SqlTypeInfo)>)),
}

impl View for SqlQuery {
    type V = QueryModel;

    open spec fn view(&self) -> QueryModel {
        match self {
            SqlQuery::Select(q) => QueryModel::Select(q@),
            SqlQuery::Insert(q) => QueryModel::Insert(q@),
            SqlQuery::Create(q) => QueryModel::Create(q@),
        }
    }
}

/// One statement at position `i`: select, insert and create are tried in that
/// order, and the first that reads wins.
pub open spec fn spec_statement(s: Seq<char>, i: int) -> Option<(QueryModel, int)> {
    match spec_select(s, i) {
        Some((q, e)) => Some((QueryModel::Select(q), e)),
        None => match spec_insert(s, i) {
            Some((q, e)) => Some((QueryModel::Insert(q), e)),
            None => match spec_create(s, i) {
                Some((q, e)) => Some((QueryModel::Create(q), e)),
                None => None,
            },
        },
    }
}

/// Optional whitespace, a statement, optional whitespace, a semicolon, and the
/// whitespace after it.
pub open spec fn spec_query(s: Seq<char>, i: int) -> Option<(QueryModel, int)> {
    match spec_statement(s, ws_end(s, i)) {
        Some((q, e)) => {
            let b = ws_end(s, e);
            if 0 <= b < s.len() && s[b] == ';' {
                Some((q, ws_end(s, b + 1)))
            } else {
                None
            }
        },
        None => None,
    }
}

/// A statement that takes the whole text, nothing left after it.
pub open spec fn spec_query_complete(s: Seq<char>) -> Option<QueryModel> {
    complete(s, spec_query(s, 0))
}

/// Of two failures, the one that got further; the first where they tie.
pub open spec fn spec_deeper(a: ErrModel, b: ErrModel) -> ErrModel {
    if b.1 > a.1 {
        b
    } else {
        a
    }
}

/// How reading a statement at `i` fails: the failure of the alternative that got
/// furthest, or, where none got past `i`, an exhausted alternative there.
pub open spec fn statement_failure(s: Seq<char>, i: int) -> ErrModel {
    let d = spec_deeper(spec_deeper(select_failure(s, i), insert_failure(s, i)), create_failure(s, i));
    if d.1 <= i {
        (ErrorKind::AlternativeExhausted, d.1, d.2)
    } else {
        d
    }
}

/// How reading a statement with its semicolon at `i` fails.
pub open spec fn query_failure(s: Seq<char>, i: int) -> ErrModel {
    let a = ws_end(s, i);
    match spec_statement(s, a) {
        None => nest(RuleName::Query, statement_failure(s, a)),
        Some((_, e)) => nest(RuleName::Query, fail(ErrorKind::TokenMismatch, ws_end(s, e))),
    }
}

/// Of two failures, the one that got further; the first where they tie.
fn deeper(a: ParseError, b: ParseError) -> (r: ParseError)
    ensures
        r == a || r == b,
        r.offset >= a.offset && r.offset >= b.offset,
        r@ == spec_deeper(a@, b@),
{
    if b.offset > a.offset {
        b
    } else {
        a
    }
}

pub fn statement_at(s: &Vec<char>, pos: usize) -> (r: Result<(SqlQuery, usize), ParseError>)
    requires
        pos <= s@.len(),
    ensures
        agrees(s@, r, spec_statement(s@, pos as int)),
        r matches Ok((_, e)) ==> pos < e <= s@.len(),
        r matches Err(err) ==> err@ == statement_failure(s@, pos as int),
{
    let e1 = match select_at(s, pos) {
        Ok((q, e)) => {
            return Ok((SqlQuery::Select(q), e));
        },
        Err(err) => err,
    };
    let e2 = match insert_at(s, pos) {
        Ok((q, e)) => {
            return Ok((SqlQuery::Insert(q), e));
        },
        Err(err) => err,
    };
    let e3 = match create_at(s, pos) {
        Ok((q, e)) => {
            return Ok((SqlQuery::Create(q), e));
        },
        Err(err) => err,
    };
    let d = deeper(deeper(e1, e2), e3);
    if d.offset <= pos {
        Err(ParseError { kind: ErrorKind::AlternativeExhausted, offset: d.offset, contexts: d.contexts })
    } else {
        Err(d)
    }
}

pub fn query_at(s: &Vec<char>, pos: usize) -> (r: Result<(SqlQuery, usize), ParseError>)
    requires
        pos <= s@.len(),
    ensures
        agrees(s@, r, spec_query(s@, pos as int)),
        r matches Ok((_, e)) ==> pos < e <= s@.len(),
        r matches Err(err) ==> err@ == query_failure(s@, pos as int),
{
    let a = skip_ws(s, pos);
    let (q, e) = match statement_at(s, a) {
        Ok(x) => x,
        Err(err) => {
            return Err(err.within(RuleName::Query));
        },
    };
    let b = skip_ws(s, e);
    if b < s.len() && s[b] == ';' {
        Ok((q, skip_ws(s, b + 1)))
    } else {
        Err(ParseError::new(ErrorKind::TokenMismatch, b).within(RuleName::Query))
    }
}

impl Parse for SqlQuery {
    open spec fn grammar(s: Seq<char>, i: int) -> Option<(QueryModel, int)> {
        spec_query(s, i)
    }

    /// Reads one statement, its semicolon and the whitespace after it.
    open spec fn failure(s: Seq<char>, i: int) -> ErrModel {
        query_failure(s, i)
    }

    fn parse(i: Span) -> (r: Result<(Span, SqlQuery), ParseError>) {
        match query_at(&i.text, i.offset) {
            Ok((q, e)) => Ok((Span { text: i.text, offset: e }, q)),
            Err(err) => Err(err),
        }
    }
}

} // verus!
