use sql_jr_parser::types::Parse;
use sql_jr_parser::insert_statement::{
    parse_column_names, parse_column_values, parse_table_name, InsertStatement,
};
use sql_jr_parser::types::{ErrorKind, RuleName, Span};

#[test]
fn insert_statement_test_parse_table_name() {
    let (_, parsed) = parse_table_name(Span::new("insert into Person")).unwrap();

    assert_eq!(parsed, "Person".to_string());
}

#[test]
fn insert_statement_test_parse_column_names() {
    let (_, parsed) =
        parse_column_names(Span::new("(CustomerName, ContactName, Address)")).unwrap();

    assert_eq!(
        parsed,
        vec![
            "CustomerName".to_string(),
            "ContactName".to_string(),
            "Address".to_string(),
        ]
    );
}

#[test]
fn test_parse_column_names_with_leading_and_trailing_spaces() {
    let (_, parsed) =
        parse_column_names(Span::new("( CustomerName, ContactName, Address )")).unwrap();

    assert_eq!(
        parsed,
        vec![
            "CustomerName".to_string(),
            "ContactName".to_string(),
            "Address".to_string(),
        ]
    );
}

#[test]
fn test_parse_column_values() {
    let (_, parsed) = parse_column_values(Span::new(
        "VALUES ( \"CustomerName\", \"ContactName\", \"Address\" )",
    ))
    .unwrap();

    assert_eq!(
        parsed,
        vec![
            "CustomerName".to_string(),
            "ContactName".to_string(),
            "Address".to_string(),
        ]
    );
}

#[test]
fn test_parse_insert_statement_with_column_names() {
    let (_, statement) = InsertStatement::parse_from_raw(
        "INSERT INTO Customers (CustomerName, ContactName, Address) VALUES ('Cardinal', 'Tom B. Erichsen', 'Skagen 21');",
    )
    .unwrap();

    assert_eq!(
        statement,
        InsertStatement {
            table: "Customers".to_string(),
            columns: vec![
                "CustomerName".to_string(),
                "ContactName".to_string(),
                "Address".to_string()
            ],
            values: vec![
                "Cardinal".to_string(),
                "Tom B. Erichsen".to_string(),
                "Skagen 21".to_string(),
            ]
        }
    )
}

#[test]
fn test_parse_insert_statement_without_column_names() {
    let (_, statement) = InsertStatement::parse_from_raw(
        "INSERT INTO Customers VALUES ('Cardinal', 'Tom B. Erichsen', 'Skagen 21');",
    )
    .unwrap();

    assert_eq!(
        statement,
        InsertStatement {
            table: "Customers".to_string(),
            columns: vec![],
            values: vec![
                "Cardinal".to_string(),
                "Tom B. Erichsen".to_string(),
                "Skagen 21".to_string(),
            ]
        }
    )
}

#[test]
fn column_names_absent_leaves_span() {
    let (rest, parsed) = parse_column_names(Span::new("VALUES ('a')")).unwrap();
    assert!(parsed.is_empty());
    assert_eq!(rest.offset, 0);
}

#[test]
fn column_names_without_space_after_comma() {
    let (rest, parsed) = parse_column_names(Span::new("(a,b)")).unwrap();
    assert_eq!(parsed, vec!["a".to_string(), "b".to_string()]);
    assert_eq!(rest.offset, 5);
}

#[test]
fn values_must_not_be_empty() {
    assert!(parse_column_values(Span::new("VALUES ()")).is_err());
    assert!(InsertStatement::parse_from_raw("insert into t (a, b) values ()").is_err());
}

#[test]
fn arity_is_not_checked() {
    let (_, statement) = InsertStatement::parse_from_raw("insert into t (a, b) values ('x')").unwrap();
    assert_eq!(statement.columns.len(), 2);
    assert_eq!(statement.values.len(), 1);
}

#[test]
fn insert_without_spaces_after_commas() {
    let (rest, statement) = InsertStatement::parse_from_raw(
        "INSERT INTO Customers (CustomerName,ContactName,Address) VALUES ('Cardinal','Tom B. Erichsen','Skagen 21')",
    )
    .unwrap();
    assert_eq!(
        statement,
        InsertStatement {
            table: "Customers".to_string(),
            columns: vec![
                "CustomerName".to_string(),
                "ContactName".to_string(),
                "Address".to_string()
            ],
            values: vec![
                "Cardinal".to_string(),
                "Tom B. Erichsen".to_string(),
                "Skagen 21".to_string(),
            ]
        }
    );
    assert_eq!(rest.fragment(), "");
}

#[test]
fn values_failure_names_rule() {
    let err = parse_column_values(Span::new("(a) VALUES ('x')")).unwrap_err();
    assert_eq!(err.contexts, vec![RuleName::Values]);
    assert_eq!(err.offset, 0);
    assert_eq!(err.kind, ErrorKind::TokenMismatch);
}

#[test]
fn insert_needs_values() {
    assert!(InsertStatement::parse_from_raw("INSERT INTO t (a)").is_err());
    assert!(InsertStatement::parse_from_raw("INSERTINTO t VALUES ('a')").is_err());
}
