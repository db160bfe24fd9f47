use sql_jr_parser::types::Parse;
use sql_jr_parser::select_statement::{parse_column_names, parse_table_name, SelectStatement};
use sql_jr_parser::types::Span;

#[test]
fn select_statement_test_parse_table_name() {
    let (_, parsed) = parse_table_name(Span::new(" FROM PERSON")).unwrap();

    assert_eq!(parsed, "PERSON".to_string());
}

#[test]
fn test_parse_table_name_ended_with_semicolon() {
    let (_, parsed) = parse_table_name(Span::new(" FROM PERSON;")).unwrap();

    assert_eq!(parsed, "PERSON".to_string());
}

#[test]
fn select_statement_test_parse_column_names() {
    let (_, parsed) =
        parse_column_names(Span::new("SELECT CustomerName, City FROM Customers;")).unwrap();

    assert_eq!(parsed, vec!["CustomerName".to_string(), "City".to_string()]);
}

#[test]
fn test_parse_select_statement() {
    let (_, statement) =
        SelectStatement::parse_from_raw("SELECT CustomerName, City FROM Customers;").unwrap();

    assert_eq!(
        statement,
        SelectStatement {
            table: "Customers".to_string(),
            columns: vec!["CustomerName".to_string(), "City".to_string()]
        }
    )
}

#[test]
fn select_needs_a_column() {
    assert!(SelectStatement::parse_from_raw("SELECT FROM t").is_err());
    assert!(SelectStatement::parse_from_raw("SELECTa FROM t").is_err());
}

#[test]
fn select_stops_at_semicolon() {
    let (rest, statement) = SelectStatement::parse_from_raw("select a,b from T;").unwrap();
    assert_eq!(statement.columns, vec!["a".to_string(), "b".to_string()]);
    assert_eq!(statement.table, "T");
    assert_eq!(rest.fragment(), ";");
}
