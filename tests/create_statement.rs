use sql_jr_parser::types::Parse;
use sql_jr_parser::create_statement::{column_definitions, Column, CreateStatement, SqlTypeInfo};
use sql_jr_parser::types::{ErrorKind, RuleName, Span};

#[test]
fn test_parse_sql_type_info_int() {
    let (_, type_info) = SqlTypeInfo::parse(Span::new("int")).unwrap();

    assert_eq!(type_info, SqlTypeInfo::Int);
}

#[test]
fn test_parse_sql_type_info_string() {
    let (_, type_info) = SqlTypeInfo::parse(Span::new("string")).unwrap();

    assert_eq!(type_info, SqlTypeInfo::String);
}

#[test]
fn test_parse_sql_column_of_type_int() {
    let (_, column) = Column::parse_from_raw("age int,").unwrap();

    assert_eq!(
        column,
        Column {
            name: "age".to_string(),
            type_info: SqlTypeInfo::Int
        }
    );
}

#[test]
fn test_parse_sql_column_of_type_string() {
    let (_, column) = Column::parse_from_raw("address string,").unwrap();

    assert_eq!(
        column,
        Column {
            name: "address".to_string(),
            type_info: SqlTypeInfo::String
        }
    );
}

#[test]
fn test_parse_sql_columns_definitions() {
    let (_, column) = column_definitions(Span::new("(address string, age int)")).unwrap();

    assert_eq!(
        column,
        vec![
            Column {
                name: "address".to_string(),
                type_info: SqlTypeInfo::String
            },
            Column {
                name: "age".to_string(),
                type_info: SqlTypeInfo::Int
            }
        ]
    );
}

#[test]
fn test_parse_create_statement() {
    let (_, statement) =
        CreateStatement::parse_from_raw("create table Person (name string, age int)").unwrap();

    assert_eq!(
        statement,
        CreateStatement {
            table: "Person".to_string(),
            columns: vec![
                Column {
                    name: "name".to_string(),
                    type_info: SqlTypeInfo::String
                },
                Column {
                    name: "age".to_string(),
                    type_info: SqlTypeInfo::Int
                }
            ]
        }
    )
}

#[test]
fn type_keyword_case_is_ignored() {
    for t in ["int", "INT", "Int", "iNt"] {
        let (rest, type_info) = SqlTypeInfo::parse(Span::new(t)).unwrap();
        assert_eq!(type_info, SqlTypeInfo::Int);
        assert_eq!(rest.offset, 3);
    }
    let (_, type_info) = SqlTypeInfo::parse(Span::new("STRING")).unwrap();
    assert_eq!(type_info, SqlTypeInfo::String);
}

#[test]
fn unknown_type_is_refused() {
    let err = SqlTypeInfo::parse(Span::new("float")).unwrap_err();
    assert_eq!(err.kind, ErrorKind::TokenMismatch);
    assert_eq!(err.contexts, vec![RuleName::ColumnType]);
}

#[test]
fn create_needs_space_between_keywords() {
    assert!(CreateStatement::parse_from_raw("CREATETABLE Persons (PersonID int)").is_err());
    assert!(CreateStatement::parse_from_raw("CREATE TABLEPersons (PersonID int)").is_err());
    assert!(Column::parse_from_raw("ageint").is_err());
}

#[test]
fn create_keeps_identifier_case() {
    let (rest, statement) =
        CreateStatement::parse_from_raw("CrEaTe TaBlE PeRsOnS (Id INT)").unwrap();
    assert_eq!(statement.table, "PeRsOnS");
    assert_eq!(statement.columns[0].name, "Id");
    assert_eq!(rest.offset, 29);
}

#[test]
fn create_column_failure_names_rules() {
    let err = column_definitions(Span::new("(age float)")).unwrap_err();
    assert_eq!(
        err.contexts,
        vec![RuleName::ColumnDefinitions, RuleName::CreateColumn, RuleName::ColumnType]
    );
    assert_eq!(err.offset, 5);
}

#[test]
fn create_whitespace_optional_around_parens_and_commas() {
    let (rest, statement) =
        CreateStatement::parse_from_raw("CREATE TABLE Persons( PersonID int , LastName string )")
            .unwrap();
    assert_eq!(
        statement,
        CreateStatement {
            table: "Persons".to_string(),
            columns: vec![
                Column { name: "PersonID".to_string(), type_info: SqlTypeInfo::Int },
                Column { name: "LastName".to_string(), type_info: SqlTypeInfo::String },
            ]
        }
    );
    assert_eq!(rest.fragment(), "");
}

#[test]
fn empty_column_definitions_refused() {
    let err = column_definitions(Span::new("()")).unwrap_err();
    assert_eq!(
        err.contexts,
        vec![RuleName::ColumnDefinitions, RuleName::CreateColumn, RuleName::ColumnName]
    );
    assert_eq!(err.kind, ErrorKind::EmptyIdentifier);
    assert_eq!(err.offset, 1);
}

#[test]
fn unknown_type_in_statement_trail() {
    let err = CreateStatement::parse_from_raw("CREATE TABLE Persons (PersonID float)").unwrap_err();
    assert_eq!(err.offset, 31);
    assert_eq!(err.kind, ErrorKind::TokenMismatch);
    assert_eq!(
        err.contexts,
        vec![
            RuleName::CreateTable,
            RuleName::ColumnDefinitions,
            RuleName::CreateColumn,
            RuleName::ColumnType
        ]
    );
}

#[test]
fn rule_labels() {
    assert_eq!(RuleName::Query.label(), "Query");
    assert_eq!(RuleName::CreateTable.label(), "Create Table");
    assert_eq!(RuleName::CreateColumn.label(), "Create Column");
    assert_eq!(RuleName::ColumnDefinitions.label(), "Column Definitions");
    assert_eq!(RuleName::ColumnType.label(), "Column Type");
    assert_eq!(RuleName::ColumnName.label(), "Column Name");
    assert_eq!(RuleName::TableName.label(), "Table Name");
    assert_eq!(RuleName::Values.label(), "Values");
}
