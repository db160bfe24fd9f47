use vstd::prelude::*;

use crate::common_parsers::{
    spec_comma, spec_identifier, spec_literal, spec_quoted, spec_text_item, spec_text_list0,
    spec_text_list1, spec_text_rest,
};
use crate::create_statement::{
    kw_create, kw_int, kw_string, kw_table, spec_column, SqlTypeInfo, spec_column_definitions,
    spec_columns_rest, spec_create, spec_type_info,
};
use crate::insert_statement::{
    kw_insert, kw_into, kw_values, spec_column_names, spec_insert, spec_insert_table, spec_values,
};
use crate::query::{spec_query, spec_query_complete, spec_statement, QueryModel};
use crate::select_statement::{
    kw_from, kw_select, spec_from_table, spec_select, spec_select_columns,
};
use crate::text::{alnum_end, ci_eq, find_char, is_ws, keyword_at, ws_end};

verus! {

/// An answer of the grammar with its end position moved by `n`.
pub open spec fn shifted<T>(r: Option<(T, int)>, n: int) -> Option<(T, int)> {
    match r {
        Some((v, e)) => Some((v, e + n)),
        None => None,
    }
}

proof fn lemma_index(p: Seq<char>, s: Seq<char>, k: int)
    requires
        0 <= k < s.len(),
    ensures
        (p + s)[k + p.len()] == s[k],
{
}

proof fn lemma_ws(p: Seq<char>, s: Seq<char>, i: int)
    requires
        0 <= i <= s.len(),
    ensures
        ws_end(p + s, i + p.len()) == ws_end(s, i) + p.len(),
        i <= ws_end(s, i) <= s.len(),
    decreases s.len() - i,
{
    if i < s.len() {
        lemma_index(p, s, i);
        lemma_ws(p, s, i + 1);
    }
}

proof fn lemma_alnum(p: Seq<char>, s: Seq<char>, i: int)
    requires
        0 <= i <= s.len(),
    ensures
        alnum_end(p + s, i + p.len()) == alnum_end(s, i) + p.len(),
        i <= alnum_end(s, i) <= s.len(),
    decreases s.len() - i,
{
    if i < s.len() {
        lemma_index(p, s, i);
        lemma_alnum(p, s, i + 1);
    }
}

proof fn lemma_find(p: Seq<char>, s: Seq<char>, i: int, q: char)
    requires
        0 <= i <= s.len(),
    ensures
        find_char(p + s, i + p.len(), q) == find_char(s, i, q) + p.len(),
        i <= find_char(s, i, q) <= s.len(),
    decreases s.len() - i,
{
    if i < s.len() {
        lemma_index(p, s, i);
        lemma_find(p, s, i + 1, q);
    }
}

proof fn lemma_keyword(p: Seq<char>, s: Seq<char>, i: int, kw: Seq<char>)
    requires
        0 <= i <= s.len(),
    ensures
        keyword_at(p + s, i + p.len(), kw) == keyword_at(s, i, kw),
{
    let t = p + s;
    let n = p.len() as int;
    if i + kw.len() <= s.len() {
        assert forall|k: int| 0 <= k < kw.len() implies #[trigger] t[i + n + k] == s[i + k] by {
            lemma_index(p, s, i + k);
        }
        if keyword_at(s, i, kw) {
            assert forall|k: int| 0 <= k < kw.len() implies ci_eq(#[trigger] t[i + n + k], kw[k]) by {
                assert(ci_eq(s[i + k], kw[k]));
            }
        }
        if keyword_at(t, i + n, kw) {
            assert forall|k: int| 0 <= k < kw.len() implies ci_eq(#[trigger] s[i + k], kw[k]) by {
                assert(ci_eq(t[i + n + k], kw[k]));
            }
        }
    }
}

proof fn lemma_sub(p: Seq<char>, s: Seq<char>, i: int, e: int)
    requires
        0 <= i <= e <= s.len(),
    ensures
        (p + s).subrange(i + p.len(), e + p.len()) == s.subrange(i, e),
{
    assert((p + s).subrange(i + p.len(), e + p.len()) =~= s.subrange(i, e));
}

proof fn lemma_char_at(p: Seq<char>, s: Seq<char>, i: int, c: char)
    requires
        0 <= i <= s.len(),
    ensures
        (0 <= i + p.len() < (p + s).len() && (p + s)[i + p.len()] == c) == (i < s.len() && s[i] == c),
{
    if i < s.len() {
        lemma_index(p, s, i);
    }
}

proof fn lemma_identifier(p: Seq<char>, s: Seq<char>, i: int)
    requires
        0 <= i <= s.len(),
    ensures
        spec_identifier(p + s, i + p.len()) == shifted(spec_identifier(s, i), p.len() as int),
        spec_identifier(s, i) matches Some((_, e)) ==> i < e <= s.len(),
{
    lemma_alnum(p, s, i);
    let e = alnum_end(s, i);
    lemma_sub(p, s, i, e);
}

proof fn lemma_quoted(p: Seq<char>, s: Seq<char>, i: int, q: char)
    requires
        0 <= i <= s.len(),
    ensures
        spec_quoted(p + s, i + p.len(), q) == shifted(spec_quoted(s, i, q), p.len() as int),
        spec_quoted(s, i, q) matches Some((_, e)) ==> i < e <= s.len(),
{
    lemma_char_at(p, s, i, q);
    if i < s.len() && s[i] == q {
        lemma_find(p, s, i + 1, q);
        let e = find_char(s, i + 1, q);
        lemma_sub(p, s, i + 1, e);
    }
}

proof fn lemma_literal(p: Seq<char>, s: Seq<char>, i: int)
    requires
        0 <= i <= s.len(),
    ensures
        spec_literal(p + s, i + p.len()) == shifted(spec_literal(s, i), p.len() as int),
        spec_literal(s, i) matches Some((_, e)) ==> i < e <= s.len(),
{
    lemma_quoted(p, s, i, '\'');
    lemma_quoted(p, s, i, '"');
}

proof fn lemma_text_item(p: Seq<char>, s: Seq<char>, i: int, lit: bool)
    requires
        0 <= i <= s.len(),
    ensures
        spec_text_item(p + s, i + p.len(), lit) == shifted(spec_text_item(s, i, lit), p.len() as int),
        spec_text_item(s, i, lit) matches Some((_, e)) ==> i < e <= s.len(),
{
    lemma_literal(p, s, i);
    lemma_identifier(p, s, i);
}

proof fn lemma_comma(p: Seq<char>, s: Seq<char>, i: int, lead: bool, need_space: bool)
    requires
        0 <= i <= s.len(),
    ensures
        spec_comma(p + s, i + p.len(), lead, need_space) == (match spec_comma(s, i, lead, need_space) {
            Some(j) => Some(j + p.len()),
            None => None,
        }),
        spec_comma(s, i, lead, need_space) matches Some(j) ==> i < j <= s.len(),
{
    lemma_ws(p, s, i);
    let a = if lead { ws_end(s, i) } else { i };
    lemma_char_at(p, s, a, ',');
    if a < s.len() {
        lemma_ws(p, s, a + 1);
    }
}

proof fn lemma_text_rest(p: Seq<char>, s: Seq<char>, i: int, lead: bool, need_space: bool, lit: bool)
    requires
        0 <= i <= s.len(),
    ensures
        spec_text_rest(p + s, i + p.len(), lead, need_space, lit).0 == spec_text_rest(s, i, lead, need_space, lit).0,
        spec_text_rest(p + s, i + p.len(), lead, need_space, lit).1 == spec_text_rest(s, i, lead, need_space, lit).1 + p.len(),
        i <= spec_text_rest(s, i, lead, need_space, lit).1 <= s.len(),
    decreases s.len() - i,
{
    lemma_comma(p, s, i, lead, need_space);
    if let Some(j) = spec_comma(s, i, lead, need_space) {
        lemma_text_item(p, s, j, lit);
        if let Some((_, k)) = spec_text_item(s, j, lit) {
            lemma_text_rest(p, s, k, lead, need_space, lit);
        }
    }
}

proof fn lemma_list0(p: Seq<char>, s: Seq<char>, i: int, lead: bool, need_space: bool, lit: bool)
    requires
        0 <= i <= s.len(),
    ensures
        spec_text_list0(p + s, i + p.len(), lead, need_space, lit).0 == spec_text_list0(s, i, lead, need_space, lit).0,
        spec_text_list0(p + s, i + p.len(), lead, need_space, lit).1 == spec_text_list0(s, i, lead, need_space, lit).1 + p.len(),
        i <= spec_text_list0(s, i, lead, need_space, lit).1 <= s.len(),
        spec_text_list1(p + s, i + p.len(), lead, need_space, lit) == shifted(spec_text_list1(s, i, lead, need_space, lit), p.len() as int),
        spec_text_list1(s, i, lead, need_space, lit) matches Some((_, e)) ==> i < e <= s.len(),
{
    lemma_text_item(p, s, i, lit);
    if let Some((_, k)) = spec_text_item(s, i, lit) {
        lemma_text_rest(p, s, k, lead, need_space, lit);
    }
}

proof fn lemma_type_info(p: Seq<char>, s: Seq<char>, i: int)
    requires
        0 <= i <= s.len(),
    ensures
        spec_type_info(p + s, i + p.len()) == shifted(spec_type_info(s, i), p.len() as int),
        spec_type_info(s, i) matches Some((_, e)) ==> i < e <= s.len(),
{
    lemma_keyword(p, s, i, kw_string());
    lemma_keyword(p, s, i, kw_int());
}

proof fn lemma_column(p: Seq<char>, s: Seq<char>, i: int)
    requires
        0 <= i <= s.len(),
    ensures
        spec_column(p + s, i + p.len()) == shifted(spec_column(s, i), p.len() as int),
        spec_column(s, i) matches Some((_, e)) ==> i < e <= s.len(),
{
    lemma_identifier(p, s, i);
    if let Some((_, e)) = spec_identifier(s, i) {
        lemma_ws(p, s, e);
        lemma_type_info(p, s, ws_end(s, e));
    }
}

proof fn lemma_columns_rest(p: Seq<char>, s: Seq<char>, i: int)
    requires
        0 <= i <= s.len(),
    ensures
        spec_columns_rest(p + s, i + p.len()).0 == spec_columns_rest(s, i).0,
        spec_columns_rest(p + s, i + p.len()).1 == spec_columns_rest(s, i).1 + p.len(),
        i <= spec_columns_rest(s, i).1 <= s.len(),
    decreases s.len() - i,
{
    lemma_comma(p, s, i, true, false);
    if let Some(j) = spec_comma(s, i, true, false) {
        lemma_column(p, s, j);
        if let Some((_, k)) = spec_column(s, j) {
            lemma_columns_rest(p, s, k);
        }
    }
}

proof fn lemma_column_definitions(p: Seq<char>, s: Seq<char>, i: int)
    requires
        0 <= i <= s.len(),
    ensures
        spec_column_definitions(p + s, i + p.len()) == shifted(spec_column_definitions(s, i), p.len() as int),
        spec_column_definitions(s, i) matches Some((_, e)) ==> i < e <= s.len(),
{
    lemma_char_at(p, s, i, '(');
    if i < s.len() && s[i] == '(' {
        lemma_ws(p, s, i + 1);
        let a = ws_end(s, i + 1);
        lemma_column(p, s, a);
        if let Some((_, k)) = spec_column(s, a) {
            lemma_columns_rest(p, s, k);
            let e = spec_columns_rest(s, k).1;
            lemma_ws(p, s, e);
            lemma_char_at(p, s, ws_end(s, e), ')');
        }
    }
}

proof fn lemma_create(p: Seq<char>, s: Seq<char>, i: int)
    requires
        0 <= i <= s.len(),
    ensures
        spec_create(p + s, i + p.len()) == shifted(spec_create(s, i), p.len() as int),
        spec_create(s, i) matches Some((_, e)) ==> i < e <= s.len(),
{
    lemma_keyword(p, s, i, kw_create());
    if keyword_at(s, i, kw_create()) {
        lemma_ws(p, s, i + 6);
        let a = ws_end(s, i + 6);
        lemma_keyword(p, s, a, kw_table());
        if keyword_at(s, a, kw_table()) {
            lemma_ws(p, s, a + 5);
            let b = ws_end(s, a + 5);
            lemma_identifier(p, s, b);
            if let Some((_, e)) = spec_identifier(s, b) {
                lemma_ws(p, s, e);
                lemma_column_definitions(p, s, ws_end(s, e));
            }
        }
    }
}

proof fn lemma_insert_table(p: Seq<char>, s: Seq<char>, i: int)
    requires
        0 <= i <= s.len(),
    ensures
        spec_insert_table(p + s, i + p.len()) == shifted(spec_insert_table(s, i), p.len() as int),
        spec_insert_table(s, i) matches Some((_, e)) ==> i < e <= s.len(),
{
    lemma_keyword(p, s, i, kw_insert());
    if keyword_at(s, i, kw_insert()) {
        lemma_ws(p, s, i + 6);
        let a = ws_end(s, i + 6);
        lemma_keyword(p, s, a, kw_into());
        if keyword_at(s, a, kw_into()) {
            lemma_ws(p, s, a + 4);
            lemma_identifier(p, s, ws_end(s, a + 4));
        }
    }
}

proof fn lemma_column_names(p: Seq<char>, s: Seq<char>, i: int)
    requires
        0 <= i <= s.len(),
    ensures
        spec_column_names(p + s, i + p.len()).0 == spec_column_names(s, i).0,
        spec_column_names(p + s, i + p.len()).1 == spec_column_names(s, i).1 + p.len(),
        i <= spec_column_names(s, i).1 <= s.len(),
{
    lemma_char_at(p, s, i, '(');
    if i < s.len() && s[i] == '(' {
        lemma_ws(p, s, i + 1);
        let a = ws_end(s, i + 1);
        lemma_list0(p, s, a, true, false, false);
        let e = spec_text_list0(s, a, true, false, false).1;
        lemma_ws(p, s, e);
        lemma_char_at(p, s, ws_end(s, e), ')');
    }
}

proof fn lemma_values(p: Seq<char>, s: Seq<char>, i: int)
    requires
        0 <= i <= s.len(),
    ensures
        spec_values(p + s, i + p.len()) == shifted(spec_values(s, i), p.len() as int),
        spec_values(s, i) matches Some((_, e)) ==> i < e <= s.len(),
{
    lemma_keyword(p, s, i, kw_values());
    if keyword_at(s, i, kw_values()) {
        lemma_ws(p, s, i + 6);
        let a = ws_end(s, i + 6);
        lemma_char_at(p, s, a, '(');
        if a < s.len() && s[a] == '(' {
            lemma_ws(p, s, a + 1);
            let b = ws_end(s, a + 1);
            lemma_list0(p, s, b, true, false, true);
            if let Some((_, e)) = spec_text_list1(s, b, true, false, true) {
                lemma_ws(p, s, e);
                lemma_char_at(p, s, ws_end(s, e), ')');
            }
        }
    }
}

proof fn lemma_insert(p: Seq<char>, s: Seq<char>, i: int)
    requires
        0 <= i <= s.len(),
    ensures
        spec_insert(p + s, i + p.len()) == shifted(spec_insert(s, i), p.len() as int),
        spec_insert(s, i) matches Some((_, e)) ==> i < e <= s.len(),
{
    lemma_insert_table(p, s, i);
    if let Some((_, e)) = spec_insert_table(s, i) {
        lemma_ws(p, s, e);
        lemma_column_names(p, s, ws_end(s, e));
        let b = spec_column_names(s, ws_end(s, e)).1;
        lemma_ws(p, s, b);
        lemma_values(p, s, ws_end(s, b));
    }
}

proof fn lemma_select(p: Seq<char>, s: Seq<char>, i: int)
    requires
        0 <= i <= s.len(),
    ensures
        spec_select(p + s, i + p.len()) == shifted(spec_select(s, i), p.len() as int),
        spec_select(s, i) matches Some((_, e)) ==> i < e <= s.len(),
{
    lemma_keyword(p, s, i, kw_select());
    if keyword_at(s, i, kw_select()) {
        lemma_ws(p, s, i + 6);
        lemma_list0(p, s, ws_end(s, i + 6), false, false, false);
    }
    if let Some((_, e)) = spec_select_columns(s, i) {
        lemma_ws(p, s, e);
        let a = ws_end(s, e);
        lemma_keyword(p, s, a, kw_from());
        if keyword_at(s, a, kw_from()) {
            lemma_ws(p, s, a + 4);
            lemma_identifier(p, s, ws_end(s, a + 4));
        }
    }
}

proof fn lemma_statement(p: Seq<char>, s: Seq<char>, i: int)
    requires
        0 <= i <= s.len(),
    ensures
        spec_statement(p + s, i + p.len()) == shifted(spec_statement(s, i), p.len() as int),
        spec_statement(s, i) matches Some((_, e)) ==> i < e <= s.len(),
{
    lemma_select(p, s, i);
    lemma_insert(p, s, i);
    lemma_create(p, s, i);
}

/// What a statement reads at a position depends only on the text from there on:
/// the same text after any prefix gives the same statement, its end moved by the
/// prefix's length.
pub proof fn query_reads_forward(p: Seq<char>, s: Seq<char>, i: int)
    requires
        0 <= i <= s.len(),
    ensures
        spec_query(p + s, i + p.len()) == shifted(spec_query(s, i), p.len() as int),
{
    lemma_ws(p, s, i);
    let a = ws_end(s, i);
    lemma_statement(p, s, a);
    if let Some((_, e)) = spec_statement(s, a) {
        lemma_ws(p, s, e);
        let b = ws_end(s, e);
        lemma_char_at(p, s, b, ';');
        if b < s.len() {
            lemma_ws(p, s, b + 1);
        }
    }
}

proof fn lemma_ws_run(s: Seq<char>, i: int, j: int)
    requires
        0 <= i <= j <= s.len(),
        forall|k: int| i <= k < j ==> is_ws(#[trigger] s[k]),
    ensures
        ws_end(s, i) == ws_end(s, j),
    decreases j - i,
{
    if i < j {
        lemma_ws_run(s, i + 1, j);
    }
}

/// Whitespace before a statement, of any length, changes nothing: the text parses
/// to the same statement, and as a whole text exactly when it did before.
pub proof fn leading_whitespace_ignored(w: Seq<char>, s: Seq<char>)
    requires
        forall|k: int| 0 <= k < w.len() ==> is_ws(#[trigger] w[k]),
    ensures
        spec_query(w + s, 0) == shifted(spec_query(s, 0), w.len() as int),
        spec_query_complete(w + s) == spec_query_complete(s),
{
    let t = w + s;
    assert forall|k: int| 0 <= k < w.len() implies is_ws(#[trigger] t[k]) by {
        assert(t[k] == w[k]);
    }
    lemma_ws_run(t, 0, w.len() as int);
    lemma_ws(w, s, 0);
    let a = ws_end(s, 0);
    lemma_statement(w, s, a);
    if let Some((_, e)) = spec_statement(s, a) {
        lemma_ws(w, s, e);
        let b = ws_end(s, e);
        lemma_char_at(w, s, b, ';');
        if b < s.len() {
            lemma_ws(w, s, b + 1);
        }
    }
}

/// A statement followed by anything but whitespace is not a complete text, even
/// though the statement itself is read.
pub proof fn trailing_input_refused(s: Seq<char>, q: QueryModel, e: int)
    requires
        spec_query(s, 0) == Some((q, e)),
        e < s.len(),
    ensures
        spec_query_complete(s) is None,
{
}

/// A statement that reaches the end of the text is accepted as complete.
pub proof fn complete_statement_accepted(s: Seq<char>, q: QueryModel)
    requires
        spec_query(s, 0) == Some((q, s.len() as int)),
    ensures
        spec_query_complete(s) == Some(q),
{
}

/// `CREATE` directly followed by anything but whitespace is no create statement
/// (so `CREATETABLE` fails), and likewise `INSERT` and `SELECT`.
pub proof fn keyword_needs_whitespace(s: Seq<char>, i: int)
    requires
        0 <= i,
        !(i + 6 < s.len() && is_ws(s[i + 6])),
    ensures
        spec_create(s, i) is None,
        spec_insert(s, i) is None,
        spec_select(s, i) is None,
{
}

/// A type keyword is read in any letter case: `int`, `INT` and `Int` all give the
/// integer type, `string` in any case the string type.
pub proof fn type_keyword_any_case(s: Seq<char>, i: int)
    requires
        0 <= i,
    ensures
        keyword_at(s, i, kw_int()) ==> spec_type_info(s, i) == Some((SqlTypeInfo::Int, i + 3)),
        keyword_at(s, i, kw_string()) ==> spec_type_info(s, i) == Some((SqlTypeInfo::String, i + 6)),
{
    if keyword_at(s, i, kw_int()) {
        assert(ci_eq(s[i + 0], kw_int()[0]));
        assert(!ci_eq(s[i + 0], kw_string()[0]));
    }
}

} // verus!
