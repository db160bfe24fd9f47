use sql_jr_parser::common_parsers::{
    identifier, is_not_quote, parse_double_quote_str, parse_single_quote_str, parse_string,
};
use sql_jr_parser::types::{ErrorKind, Span};

#[test]
fn test_parse_identifier() {
    let (remaining, parsed) = identifier(Span::new("aVariable10 = aValue")).unwrap();

    assert_eq!(parsed, "aVariable10".to_string());
    assert_eq!(remaining.fragment(), " = aValue");
}

#[test]
fn test_parse_single_quote_string() {
    let (_, parsed) = parse_single_quote_str(Span::new("'First', 'Second'")).unwrap();

    assert_eq!(parsed, "First".to_string())
}

#[test]
fn test_parse_single_quote_string_containing_multiple_words() {
    let (_, parsed) = parse_single_quote_str(Span::new("'First And, Only', 'Second'")).unwrap();

    assert_eq!(parsed, "First And, Only".to_string())
}

#[test]
fn test_parse_double_quote_string() {
    let (_, parsed) = parse_double_quote_str(Span::new("\"First\", \"Second\"")).unwrap();

    assert_eq!(parsed, "First".to_string())
}

#[test]
fn test_parse_double_quote_string_containing_multiple_words() {
    let (_, parsed) =
        parse_double_quote_str(Span::new("\"First And, Only\", \"Second\"")).unwrap();

    assert_eq!(parsed, "First And, Only".to_string())
}

#[test]
fn identifier_keeps_unicode_letters_and_case() {
    let (rest, parsed) = identifier(Span::new("Ünïcode9x(")).unwrap();
    assert_eq!(parsed, "Ünïcode9x");
    assert_eq!(rest.offset, 9);
}

#[test]
fn identifier_refuses_empty_run() {
    let err = identifier(Span::new(" name")).unwrap_err();
    assert_eq!(err.kind, ErrorKind::EmptyIdentifier);
    assert_eq!(err.offset, 0);
}

#[test]
fn literal_holds_other_quote() {
    let (rest, parsed) = parse_string(Span::new("\"it's fine\" tail")).unwrap();
    assert_eq!(parsed, "it's fine");
    assert_eq!(rest.fragment(), " tail");
}

#[test]
fn literal_stops_at_own_quote() {
    let (rest, parsed) = parse_string(Span::new("'it's fine'")).unwrap();
    assert_eq!(parsed, "it");
    assert_eq!(rest.fragment(), "s fine'");
}

#[test]
fn literal_unterminated_is_refused() {
    let err = parse_single_quote_str(Span::new("'abc")).unwrap_err();
    assert_eq!(err.kind, ErrorKind::UnterminatedLiteral);
    let err = parse_string(Span::new("abc")).unwrap_err();
    assert_eq!(err.kind, ErrorKind::TokenMismatch);
}

#[test]
fn empty_literal() {
    let (_, parsed) = parse_double_quote_str(Span::new("\"\"")).unwrap();
    assert_eq!(parsed, "");
}

#[test]
fn quote_test() {
    assert!(!is_not_quote('\''));
    assert!(!is_not_quote('"'));
    assert!(is_not_quote('a'));
}

#[test]
fn span_fragment_and_new() {
    let s = Span::new("héllo");
    assert_eq!(s.offset, 0);
    assert_eq!(s.text.len(), 5);
    assert_eq!(s.fragment(), "héllo");
}
