use vstd::prelude::*;

use crate::common_parsers::{comma_at, identifier_at, identifier_failure, spec_comma, spec_identifier};
use crate::text::{keyword_at, match_keyword, skip_ws, ws_end};
use crate::types::{agrees, fail, nest, span_agrees, ErrModel, ErrorKind, Parse, ParseError, RuleName, Span};

verus! {

/// A column's type.
#[derive(Clone, Copy, Debug, PartialEq, Eq, Hash, PartialOrd)]
pub enum SqlTypeInfo {
    String,
    Int,
}

impl View for SqlTypeInfo {
    type V = SqlTypeInfo;

    open spec fn view(&self) -> SqlTypeInfo {
        *self
    }
}

/// A column's name and type.
#[derive(Clone, Debug, PartialEq, Eq, Hash, PartialOrd)]
pub struct Column {
    pub name: String,
    pub type_info: SqlTypeInfo,
}

impl View for Column {
    type V = (Seq<char>, SqlTypeInfo);

    open spec fn view(&self) -> (Seq<char>, SqlTypeInfo) {
        (self.name@, self.type_info)
    }
}

/// The table to create and its columns.
#[derive(Clone, Debug, Default, PartialEq, Eq, Hash)]
pub struct CreateStatement {
    pub table: String,
    pub columns: Vec<Column>,
}

pub open spec fn columns_view(v: Seq<Column>) -> Seq<(Seq<char>, SqlTypeInfo)> {
    v.map_values(|c: Column| c@)
}

impl View for CreateStatement {
    type V = (Seq<char>, Seq<(Seq<char>, SqlTypeInfo)>);

    open spec fn view(&self) -> (Seq<char>, Seq<(Seq<char>, SqlTypeInfo)>) {
        (self.table@, columns_view(self.columns@))
    }
}

pub open spec fn kw_string() -> Seq<char> {
    seq!['s', 't', 'r', 'i', 'n', 'g']
}

pub open spec fn kw_int() -> Seq<char> {
    seq!['i', 'n', 't']
}

pub open spec fn kw_create() -> Seq<char> {
    seq!['c', 'r', 'e', 'a', 't', 'e']
}

pub open spec fn kw_table() -> Seq<char> {
    seq!['t', 'a', 'b', 'l', 'e']
}

/// A type keyword at `i`, in any letter case: `string` is tried before `int`.
pub open spec fn spec_type_info(s: Seq<char>, i: int) -> Option<(SqlTypeInfo, int)> {
    if keyword_at(s, i, kw_string()) {
        Some((SqlTypeInfo::String, i + 6))
    } else if keyword_at(s, i, kw_int()) {
        Some((SqlTypeInfo::Int, i + 3))
    } else {
        None
    }
}

/// A column definition at `i`: a name, whitespace, a type.
pub open spec fn spec_column(s: Seq<char>, i: int) -> Option<((Seq<char>, SqlTypeInfo), int)> {
    match spec_identifier(s, i) {
        Some((name, e)) => {
            let w = ws_end(s, e);
            if w > e {
                match spec_type_info(s, w) {
                    Some((t, k)) => Some(((name, t), k)),
                    None => None,
                }
            } else {
                None
            }
        },
        None => None,
    }
}

/// The column definitions after a first one, each after a comma.
pub open spec fn spec_columns_rest(s: Seq<char>, i: int) -> (Seq<(Seq<char>, SqlTypeInfo)>, int)
    decreases s.len() - i,
{
    match spec_comma(s, i, true, false) {
        Some(j) => match spec_column(s, j) {
            Some((c, k)) => if i < k <= s.len() {
                let (cs, e) = spec_columns_rest(s, k);
                (seq![c] + cs, e)
            } else {
                (seq![], i)
            },
            None => (seq![], i),
        },
        None => (seq![], i),
    }
}

/// A parenthesised, comma separated, non-empty list of column definitions;
/// whitespace may stand after `(` and before `)`.
pub open spec fn spec_column_definitions(s: Seq<char>, i: int) -> Option<(Seq<(Seq<char>, SqlTypeInfo)>, int)> {
    if 0 <= i < s.len() && s[i] == '(' {
        match spec_column(s, ws_end(s, i + 1)) {
            Some((c, k)) => {
                let (cs, e) = spec_columns_rest(s, k);
                let f = ws_end(s, e);
                if 0 <= f < s.len() && s[f] == ')' {
                    Some((seq![c] + cs, f + 1))
                } else {
                    None
                }
            },
            None => None,
        }
    } else {
        None
    }
}

/// `CREATE TABLE <name> (<columns>)`, keywords in any letter case; whitespace is
/// required after each keyword and optional before `(`.
pub open spec fn spec_create(s: Seq<char>, i: int) -> Option<((Seq<char>, Seq<(Seq<char>, SqlTypeInfo)>), int)> {
    if keyword_at(s, i, kw_create()) {
        let a = ws_end(s, i + 6);
        if a > i + 6 && keyword_at(s, a, kw_table()) {
            let b = ws_end(s, a + 5);
            if b > a + 5 {
                match spec_identifier(s, b) {
                    Some((t, e)) => match spec_column_definitions(s, ws_end(s, e)) {
                        Some((cols, k)) => Some(((t, cols), k)),
                        None => None,
                    },
                    None => None,
                }
            } else {
                None
            }
        } else {
            None
        }
    } else {
        None
    }
}

/// How reading a type at `i` fails.
pub open spec fn type_info_failure(s: Seq<char>, i: int) -> ErrModel {
    nest(RuleName::ColumnType, fail(ErrorKind::TokenMismatch, i))
}

/// How reading a column definition at `i` fails.
pub open spec fn column_failure(s: Seq<char>, i: int) -> ErrModel {
    match spec_identifier(s, i) {
        None => nest(RuleName::CreateColumn, nest(RuleName::ColumnName, identifier_failure(s, i))),
        Some((_, e)) => if ws_end(s, e) == e {
            nest(RuleName::CreateColumn, fail(ErrorKind::TokenMismatch, e))
        } else {
            nest(RuleName::CreateColumn, type_info_failure(s, ws_end(s, e)))
        },
    }
}

/// How reading column definitions at `i` fails.
pub open spec fn column_definitions_failure(s: Seq<char>, i: int) -> ErrModel {
    if !(0 <= i < s.len() && s[i] == '(') {
        nest(RuleName::ColumnDefinitions, fail(ErrorKind::TokenMismatch, i))
    } else {
        match spec_column(s, ws_end(s, i + 1)) {
            None => nest(RuleName::ColumnDefinitions, column_failure(s, ws_end(s, i + 1))),
            Some((_, k)) => nest(
                RuleName::ColumnDefinitions,
                fail(ErrorKind::TokenMismatch, ws_end(s, spec_columns_rest(s, k).1)),
            ),
        }
    }
}

/// How reading a create statement at `i` fails.
pub open spec fn create_failure(s: Seq<char>, i: int) -> ErrModel {
    if !keyword_at(s, i, kw_create()) {
        nest(RuleName::CreateTable, fail(ErrorKind::TokenMismatch, i))
    } else {
        let a = ws_end(s, i + 6);
        if a == i + 6 || !keyword_at(s, a, kw_table()) {
            nest(RuleName::CreateTable, fail(ErrorKind::TokenMismatch, a))
        } else {
            let b = ws_end(s, a + 5);
            if b == a + 5 {
                nest(RuleName::CreateTable, fail(ErrorKind::TokenMismatch, b))
            } else {
                match spec_identifier(s, b) {
                    None => nest(RuleName::CreateTable, nest(RuleName::TableName, identifier_failure(s, b))),
                    Some((_, e)) => nest(RuleName::CreateTable, column_definitions_failure(s, ws_end(s, e))),
                }
            }
        }
    }
}

pub fn type_info_at(s: &Vec<char>, pos: usize) -> (r: Result<(SqlTypeInfo, usize), ParseError>)
    requires
        pos <= s@.len(),
    ensures
        agrees(s@, r, spec_type_info(s@, pos as int)),
        r matches Ok((_, e)) ==> pos < e <= s@.len(),
        r matches Err(err) ==> err@ == type_info_failure(s@, pos as int),
{
    let string_kw: &[char] = &['s', 't', 'r', 'i', 'n', 'g'];
    let int_kw: &[char] = &['i', 'n', 't'];
    assert(string_kw@ == kw_string());
    assert(int_kw@ == kw_int());
    assert(kw_string().len() == 6 && kw_int().len() == 3);
    if match_keyword(s, pos, string_kw) {
        Ok((SqlTypeInfo::String, pos + 6))
    } else if match_keyword(s, pos, int_kw) {
        Ok((SqlTypeInfo::Int, pos + 3))
    } else {
        Err(ParseError::new(ErrorKind::TokenMismatch, pos).within(RuleName::ColumnType))
    }
}

pub fn column_at(s: &Vec<char>, pos: usize) -> (r: Result<(Column, usize), ParseError>)
    requires
        pos <= s@.len(),
    ensures
        agrees(s@, r, spec_column(s@, pos as int)),
        r matches Ok((_, e)) ==> pos < e <= s@.len(),
        r matches Err(err) ==> err@ == column_failure(s@, pos as int),
{
    let (name, e) = match identifier_at(s, pos) {
        Ok(x) => x,
        Err(err) => {
            return Err(err.within(RuleName::ColumnName).within(RuleName::CreateColumn));
        },
    };
    let w = skip_ws(s, e);
    if w == e {
        return Err(ParseError::new(ErrorKind::TokenMismatch, e).within(RuleName::CreateColumn));
    }
    match type_info_at(s, w) {
        Ok((type_info, k)) => Ok((Column { name, type_info }, k)),
        Err(err) => Err(err.within(RuleName::CreateColumn)),
    }
}

fn columns_rest_at(s: &Vec<char>, pos: usize, acc: Vec<Column>) -> (r: (Vec<Column>, usize))
    requires
        pos <= s@.len(),
    ensures
        columns_view(r.0@) == columns_view(acc@) + spec_columns_rest(s@, pos as int).0,
        r.1 as int == spec_columns_rest(s@, pos as int).1,
        pos <= r.1 <= s@.len(),
{
    let mut out = acc;
    let mut cur = pos;
    loop
        invariant
            pos <= cur <= s@.len(),
            columns_view(out@) + spec_columns_rest(s@, cur as int).0
                == columns_view(acc@) + spec_columns_rest(s@, pos as int).0,
            spec_columns_rest(s@, cur as int).1 == spec_columns_rest(s@, pos as int).1,
        ensures
            pos <= cur <= s@.len(),
            columns_view(out@) == columns_view(acc@) + spec_columns_rest(s@, pos as int).0,
            cur as int == spec_columns_rest(s@, pos as int).1,
        decreases s@.len() - cur,
    {
        let j = match comma_at(s, cur, true, false) {
            Some(j) => j,
            None => {
                assert(spec_columns_rest(s@, cur as int) == (Seq::<(Seq<char>, SqlTypeInfo)>::empty(), cur as int));
                assert(columns_view(out@) + Seq::<(Seq<char>, SqlTypeInfo)>::empty() =~= columns_view(out@));
                break;
            },
        };
        match column_at(s, j) {
            Ok((c, k)) => {
                let ghost old_out = out@;
                out.push(c);
                assert(columns_view(out@) =~= columns_view(old_out).push(c@));
                assert(columns_view(old_out) + spec_columns_rest(s@, cur as int).0
                    =~= columns_view(out@) + spec_columns_rest(s@, k as int).0);
                cur = k;
            },
            Err(_) => {
                assert(spec_columns_rest(s@, cur as int) == (Seq::<(Seq<char>, SqlTypeInfo)>::empty(), cur as int));
                assert(columns_view(out@) + Seq::<(Seq<char>, SqlTypeInfo)>::empty() =~= columns_view(out@));
                break;
            },
        }
    }
    (out, cur)
}

pub fn column_definitions_at(s: &Vec<char>, pos: usize) -> (r: Result<(Vec<Column>, usize), ParseError>)
    requires
        pos <= s@.len(),
    ensures
        match spec_column_definitions(s@, pos as int) {
            Some((v, e)) => r matches Ok((x, p)) && columns_view(x@) == v && p == e,
            None => r matches Err(err) && err.offset <= s@.len(),
        },
        r matches Ok((_, e)) ==> pos < e <= s@.len(),
        r matches Err(err) ==> err@ == column_definitions_failure(s@, pos as int),
{
    if !(pos < s.len() && s[pos] == '(') {
        return Err(ParseError::new(ErrorKind::TokenMismatch, pos).within(RuleName::ColumnDefinitions));
    }
    let (first, k) = match column_at(s, skip_ws(s, pos + 1)) {
        Ok(x) => x,
        Err(err) => {
            return Err(err.within(RuleName::ColumnDefinitions));
        },
    };
    let ghost c = first@;
    let mut acc: Vec<Column> = Vec::new();
    acc.push(first);
    assert(columns_view(acc@) =~= seq![c]);
    let (cols, e) = columns_rest_at(s, k, acc);
    let f = skip_ws(s, e);
    if f < s.len() && s[f] == ')' {
        Ok((cols, f + 1))
    } else {
        Err(ParseError::new(ErrorKind::TokenMismatch, f).within(RuleName::ColumnDefinitions))
    }
}

pub fn create_at(s: &Vec<char>, pos: usize) -> (r: Result<(CreateStatement, usize), ParseError>)
    requires
        pos <= s@.len(),
    ensures
        agrees(s@, r, spec_create(s@, pos as int)),
        r matches Ok((_, e)) ==> pos < e <= s@.len(),
        r matches Err(err) ==> err@ == create_failure(s@, pos as int),
{
    let create_kw: &[char] = &['c', 'r', 'e', 'a', 't', 'e'];
    let table_kw: &[char] = &['t', 'a', 'b', 'l', 'e'];
    assert(create_kw@ == kw_create() && table_kw@ == kw_table());
    assert(kw_create().len() == 6 && kw_table().len() == 5);
    if !match_keyword(s, pos, create_kw) {
        return Err(ParseError::new(ErrorKind::TokenMismatch, pos).within(RuleName::CreateTable));
    }
    let a = skip_ws(s, pos + 6);
    if a == pos + 6 || !match_keyword(s, a, table_kw) {
        return Err(ParseError::new(ErrorKind::TokenMismatch, a).within(RuleName::CreateTable));
    }
    let b = skip_ws(s, a + 5);
    if b == a + 5 {
        return Err(ParseError::new(ErrorKind::TokenMismatch, b).within(RuleName::CreateTable));
    }
    let (table, e) = match identifier_at(s, b) {
        Ok(x) => x,
        Err(err) => {
            return Err(err.within(RuleName::TableName).within(RuleName::CreateTable));
        },
    };
    match column_definitions_at(s, skip_ws(s, e)) {
        Ok((columns, k)) => Ok((CreateStatement { table, columns }, k)),
        Err(err) => Err(err.within(RuleName::CreateTable)),
    }
}

impl Parse for SqlTypeInfo {
    open spec fn grammar(s: Seq<char>, i: int) -> Option<(<SqlTypeInfo as View>::V, int)> {
        spec_type_info(s, i)
    }

    open spec fn failure(s: Seq<char>, i: int) -> ErrModel {
        type_info_failure(s, i)
    }

    fn parse(i: Span) -> (r: Result<(Span, SqlTypeInfo), ParseError>) {
        match type_info_at(&i.text, i.offset) {
            Ok((v, e)) => Ok((Span { text: i.text, offset: e }, v)),
            Err(err) => Err(err),
        }
    }
}

impl Parse for Column {
    open spec fn grammar(s: Seq<char>, i: int) -> Option<(<Column as View>::V, int)> {
        spec_column(s, i)
    }

    open spec fn failure(s: Seq<char>, i: int) -> ErrModel {
        column_failure(s, i)
    }

    fn parse(i: Span) -> (r: Result<(Span, Column), ParseError>) {
        match column_at(&i.text, i.offset) {
            Ok((v, e)) => Ok((Span { text: i.text, offset: e }, v)),
            Err(err) => Err(err),
        }
    }
}

/// Reads a parenthesised, comma separated, non-empty list of column definitions.
pub fn column_definitions(i: Span) -> (r: Result<(Span, Vec<Column>), ParseError>)
    requires
        i.wf(),
    ensures
        match spec_column_definitions(i.text@, i.offset as int) {
            Some((v, e)) => r matches Ok((rest, x)) && columns_view(x@) == v && rest.text == i.text && rest.offset == e,
            None => r matches Err(err) && err.offset <= i.text@.len(),
        },
        r matches Err(err) ==> err@ == column_definitions_failure(i.text@, i.offset as int),
{
    match column_definitions_at(&i.text, i.offset) {
        Ok((v, e)) => Ok((Span { text: i.text, offset: e }, v)),
        Err(err) => Err(err),
    }
}

impl Parse for CreateStatement {
    open spec fn grammar(s: Seq<char>, i: int) -> Option<(<CreateStatement as View>::V, int)> {
        spec_create(s, i)
    }

    open spec fn failure(s: Seq<char>, i: int) -> ErrModel {
        create_failure(s, i)
    }

    fn parse(i: Span) -> (r: Result<(Span, CreateStatement), ParseError>) {
        match create_at(&i.text, i.offset) {
            Ok((v, e)) => Ok((Span { text: i.text, offset: e }, v)),
            Err(err) => Err(err),
        }
    }
}

} // verus!
