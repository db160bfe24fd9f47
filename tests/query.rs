use sql_jr_parser::types::Parse;
use sql_jr_parser::create_statement::{Column, CreateStatement, SqlTypeInfo};
use sql_jr_parser::insert_statement::InsertStatement;
use sql_jr_parser::query::SqlQuery;
use sql_jr_parser::select_statement::SelectStatement;
use sql_jr_parser::types::{ErrorKind, RuleName};

#[test]
fn test_parse_select_query() {
    let (_, query) = SqlQuery::parse_from_raw("SELECT CustomerName, City FROM Customers;").unwrap();

    assert_eq!(
        query,
        SqlQuery::Select(
            SelectStatement::parse_from_raw("SELECT CustomerName, City FROM Customers;")
                .unwrap()
                .1
        )
    )
}

#[test]
fn test_parse_insert_query() {
    let raw_query =
        "INSERT INTO Customers (CustomerName, ContactName, Address, City, PostalCode, Country)
VALUES ('Cardinal', 'Tom B. Erichsen', 'Skagen 21', 'Stavanger', '4006', 'Norway');";

    let (_, query) = SqlQuery::parse_from_raw(&raw_query).unwrap();

    assert_eq!(
        query,
        SqlQuery::Insert(InsertStatement::parse_from_raw(raw_query).unwrap().1)
    )
}

#[test]
fn test_parse_create_query() {
    let raw_query = "CREATE TABLE Persons (PersonID int, 
            LastName string);";

    let (_, query) = SqlQuery::parse_from_raw(&raw_query).unwrap();

    assert_eq!(
        query,
        SqlQuery::Create(CreateStatement::parse_from_raw(raw_query).unwrap().1)
    )
}

fn strings(v: &[&str]) -> Vec<String> {
    v.iter().map(|s| s.to_string()).collect()
}

#[test]
fn example_create() {
    let q = SqlQuery::parse_format_error("CREATE TABLE Persons (PersonID int, LastName string);")
        .unwrap();
    assert_eq!(
        q,
        SqlQuery::Create(CreateStatement {
            table: "Persons".to_string(),
            columns: vec![
                Column { name: "PersonID".to_string(), type_info: SqlTypeInfo::Int },
                Column { name: "LastName".to_string(), type_info: SqlTypeInfo::String },
            ],
        })
    );
}

#[test]
fn example_insert_with_and_without_columns() {
    let q = SqlQuery::parse_format_error("INSERT INTO Customers (CustomerName, ContactName, Address) VALUES ('Cardinal', 'Tom B. Erichsen', 'Skagen 21');").unwrap();
    assert_eq!(
        q,
        SqlQuery::Insert(InsertStatement {
            table: "Customers".to_string(),
            columns: strings(&["CustomerName", "ContactName", "Address"]),
            values: strings(&["Cardinal", "Tom B. Erichsen", "Skagen 21"]),
        })
    );
    let q = SqlQuery::parse_format_error(
        "INSERT INTO Customers VALUES ('Cardinal', 'Tom B. Erichsen', 'Skagen 21');",
    )
    .unwrap();
    assert_eq!(
        q,
        SqlQuery::Insert(InsertStatement {
            table: "Customers".to_string(),
            columns: vec![],
            values: strings(&["Cardinal", "Tom B. Erichsen", "Skagen 21"]),
        })
    );
}

#[test]
fn example_select() {
    let q = SqlQuery::parse_format_error("SELECT CustomerName, City FROM Customers;").unwrap();
    assert_eq!(
        q,
        SqlQuery::Select(SelectStatement {
            table: "Customers".to_string(),
            columns: strings(&["CustomerName", "City"]),
        })
    );
}

#[test]
fn keyword_case_and_identifier_case() {
    let a = SqlQuery::parse_format_error("create table Persons (Id int);").unwrap();
    let b = SqlQuery::parse_format_error("CREATE TABLE Persons (Id INT);").unwrap();
    let c = SqlQuery::parse_format_error("Create Table Persons (Id Int);").unwrap();
    assert_eq!(a, b);
    assert_eq!(b, c);
    let d = SqlQuery::parse_format_error("CREATE TABLE persons (Id INT);").unwrap();
    assert_ne!(a, d);
}

#[test]
fn whitespace_at_optional_points() {
    let tight = SqlQuery::parse_format_error("SELECT a,b FROM t;").unwrap();
    let loose = SqlQuery::parse_format_error("  \n SELECT   a,\n   b \n FROM \t t \n ; \n").unwrap();
    assert_eq!(tight, loose);
    let tight = SqlQuery::parse_format_error("CREATE TABLE t (a int,b string);").unwrap();
    let loose =
        SqlQuery::parse_format_error("CREATE\n TABLE  t \n(a   int \n ,\n b string) ;").unwrap();
    assert_eq!(tight, loose);
}

#[test]
fn mandatory_whitespace_missing() {
    let err = SqlQuery::parse_format_error("CREATETABLE t (a int);").unwrap_err();
    assert_eq!(err.kind, ErrorKind::TokenMismatch);
    assert_eq!(err.offset, 6);
    assert_eq!(err.contexts, vec![RuleName::Query, RuleName::CreateTable]);
}

#[test]
fn literal_with_other_quote_in_query() {
    let q = SqlQuery::parse_format_error("INSERT INTO t VALUES (\"it's fine\");").unwrap();
    assert_eq!(
        q,
        SqlQuery::Insert(InsertStatement {
            table: "t".to_string(),
            columns: vec![],
            values: strings(&["it's fine"]),
        })
    );
    assert!(SqlQuery::parse_format_error("INSERT INTO t VALUES ('it's fine');").is_err());
}

#[test]
fn same_text_same_result() {
    let text = "INSERT INTO t (a, b) VALUES ('1', \"2\");";
    assert_eq!(SqlQuery::parse_format_error(text), SqlQuery::parse_format_error(text));
    let bad = "SELECT FROM;";
    assert_eq!(SqlQuery::parse_format_error(bad), SqlQuery::parse_format_error(bad));
}

#[test]
fn trailing_input_is_refused() {
    let (rest, _) = SqlQuery::parse_from_raw("SELECT a FROM b; garbage").unwrap();
    assert_eq!(rest.fragment(), "garbage");
    let err = SqlQuery::parse_format_error("SELECT a FROM b; garbage").unwrap_err();
    assert_eq!(err.kind, ErrorKind::TrailingInput);
    assert_eq!(err.offset, 17);
    assert!(err.contexts.is_empty());
}

#[test]
fn missing_table_name_diagnostic() {
    let err = SqlQuery::parse_format_error("CREATE TABLE (x int);").unwrap_err();
    assert_eq!(err.contexts, vec![RuleName::Query, RuleName::CreateTable, RuleName::TableName]);
    assert_eq!(err.kind, ErrorKind::EmptyIdentifier);
    assert_eq!(err.offset, 13);
    assert_eq!(err.line, 0);
    assert_eq!(err.column, 13);
    assert_eq!(err.source, "CREATE TABLE (x int);");
    let labels: Vec<&str> = err.contexts.iter().map(|c| c.label()).collect();
    assert_eq!(labels, vec!["Query", "Create Table", "Table Name"]);
}

#[test]
fn diagnostic_line_and_column() {
    let err = SqlQuery::parse_format_error("SELECT a\nFROM b\n  ;x").unwrap_err();
    assert_eq!(err.kind, ErrorKind::TrailingInput);
    assert_eq!(err.offset, 19);
    assert_eq!(err.line, 2);
    assert_eq!(err.column, 3);
}

#[test]
fn missing_semicolon() {
    let err = SqlQuery::parse_format_error("SELECT a FROM b").unwrap_err();
    assert_eq!(err.kind, ErrorKind::TokenMismatch);
    assert_eq!(err.offset, 15);
}

#[test]
fn nothing_matches() {
    let err = SqlQuery::parse_format_error("DROP TABLE t;").unwrap_err();
    assert_eq!(err.kind, ErrorKind::AlternativeExhausted);
    assert_eq!(err.contexts, vec![RuleName::Query]);
}

#[test]
fn strict_parse_of_single_statements() {
    let c = CreateStatement::parse_format_error("create table t (a int)").unwrap();
    assert_eq!(c.columns.len(), 1);
    let err = CreateStatement::parse_format_error("create table t (a int);").unwrap_err();
    assert_eq!(err.kind, ErrorKind::TrailingInput);
    assert_eq!(err.offset, 22);
}

#[test]
fn same_text_same_error() {
    let a = SqlQuery::parse_from_raw("CREATE TABLE (x int);").unwrap_err();
    let b = SqlQuery::parse_from_raw("CREATE TABLE (x int);").unwrap_err();
    assert_eq!(a, b);
    assert_eq!(a.offset, 13);
    assert_eq!(a.contexts, vec![RuleName::Query, RuleName::CreateTable, RuleName::TableName]);
}
