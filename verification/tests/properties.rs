use rslex::ast::Ast;
use rslex::ast::ClassItem;
use rslex::parser::parse_regexp;
use rslex::source::CharSource;
use rslex::token::ParseError;
use rslex::token::Token;
use rslex::token::TokenStream;
use rslex::token::is_id_char;
use rslex::token::is_terminator;

fn stream_with(input: &str, term: &[char]) -> TokenStream {
    TokenStream::new(CharSource::new(input.chars().collect()), term.to_vec())
}

#[test]
fn parse_bare_symbol() {
    let mut ts = stream_with("a", &[]);
    assert_eq!(parse_regexp(&mut ts).unwrap(), Ast::Symbol("a".to_string()));
    assert_eq!(ts.next_token().unwrap(), Token::Eof);
}

#[test]
fn parse_starred_symbol() {
    let mut ts = stream_with("a*", &[]);
    assert_eq!(
        parse_regexp(&mut ts).unwrap(),
        Ast::Star(Box::new(Ast::Symbol("a".to_string())))
    );
}

#[test]
fn parse_group_with_union() {
    let mut ts = stream_with("a(b|c)*", &[]);
    assert_eq!(
        parse_regexp(&mut ts).unwrap(),
        Ast::Concat(
            Box::new(Ast::Symbol("a".to_string())),
            Box::new(Ast::Star(Box::new(Ast::Union(
                Box::new(Ast::Symbol("b".to_string())),
                Box::new(Ast::Symbol("c".to_string())),
            )))),
        )
    );
}

#[test]
fn parse_class_one_plus() {
    let mut ts = stream_with("['0'-'9']+", &[]);
    assert_eq!(
        parse_regexp(&mut ts).unwrap(),
        Ast::OnePlus(Box::new(Ast::CharClass(vec![ClassItem::Range('0', '9')])))
    );
}

#[test]
fn parse_class_mixed_items() {
    let mut ts = stream_with("['ab''cd''0'-'9''55']", &[]);
    assert_eq!(
        parse_regexp(&mut ts).unwrap(),
        Ast::CharClass(vec![
            ClassItem::Singles("ab".to_string()),
            ClassItem::Singles("cd".to_string()),
            ClassItem::Range('0', '9'),
            ClassItem::Singles("55".to_string()),
        ])
    );
}

#[test]
fn parse_literal_factor() {
    let mut ts = stream_with("'ab'", &[]);
    assert_eq!(parse_regexp(&mut ts).unwrap(), Ast::Literal("ab".to_string()));
}

#[test]
fn terminator_ends_but_is_not_passed() {
    let mut ts = stream_with("letter*,", &[',']);
    assert_eq!(
        parse_regexp(&mut ts).unwrap(),
        Ast::Star(Box::new(Ast::Symbol("letter".to_string())))
    );
    // The terminator was consumed into an End token left for the caller;
    // nothing past it was touched.
    assert_eq!(ts.peek, Some(Token::End));
    assert_eq!(ts.next_token().unwrap(), Token::End);
    assert_eq!(ts.next_token().unwrap(), Token::Eof);
}

#[test]
fn parse_twice_yields_equal_trees() {
    let mut ts1 = stream_with("a(b|c)*['x''y'-'z']", &[',']);
    let mut ts2 = stream_with("a(b|c)*['x''y'-'z']", &[',']);
    assert_eq!(parse_regexp(&mut ts1).unwrap(), parse_regexp(&mut ts2).unwrap());
}

#[test]
fn double_dash_class_fails() {
    let mut ts = stream_with("['A'--'Z'],", &[',']);
    assert_eq!(
        parse_regexp(&mut ts).unwrap_err(),
        ParseError::ClassRangeNotLiteral(Token::Dash)
    );
}

#[test]
fn closure_token_in_class_fails() {
    let mut ts = stream_with("['A'*'Z'],", &[',']);
    assert_eq!(
        parse_regexp(&mut ts).unwrap_err(),
        ParseError::UnexpectedClassToken(Token::Star)
    );
}

#[test]
fn unterminated_string_fails() {
    let mut ts = stream_with("'abc", &[',']);
    assert_eq!(parse_regexp(&mut ts).unwrap_err(), ParseError::UnterminatedLiteral('\''));
}

#[test]
fn leading_dash_in_class_fails() {
    let mut ts = stream_with("[-'a'],", &[',']);
    assert_eq!(
        parse_regexp(&mut ts).unwrap_err(),
        ParseError::ClassRangeNotLiteral(Token::Dash)
    );
}

#[test]
fn closure_cannot_start_factor() {
    let mut ts = stream_with("*a,", &[',']);
    assert_eq!(parse_regexp(&mut ts).unwrap_err(), ParseError::UnexpectedToken(Token::Star));
}

#[test]
fn unclosed_group_fails() {
    let mut ts = stream_with("(a,", &[',']);
    assert_eq!(parse_regexp(&mut ts).unwrap_err(), ParseError::MissingRParen(Token::End));
}

#[test]
fn empty_range_bound_fails() {
    let mut ts = stream_with("[''-'z'],", &[',']);
    assert_eq!(parse_regexp(&mut ts).unwrap_err(), ParseError::EmptyRangeBound);
}

#[test]
fn unrecognized_character_fails() {
    let mut ts = stream_with("&,", &[',']);
    assert_eq!(parse_regexp(&mut ts).unwrap_err(), ParseError::UnexpectedToken(Token::Error('&')));
}

#[test]
fn pushback_returns_exactly_once() {
    let mut ts = stream_with("ab cd", &[',']);
    let first = ts.next_token().unwrap();
    assert_eq!(first, Token::Identifier("ab".to_string()));
    ts.return_token(first.clone());
    // The pushed-back token comes out unchanged, exactly once.
    assert_eq!(ts.next_token().unwrap(), first);
    assert_eq!(ts.next_token().unwrap(), Token::Identifier("cd".to_string()));
}

#[test]
fn identifier_scan_leaves_stopping_character() {
    let mut ts = stream_with("bc-def", &[',']);
    assert_eq!(ts.parse_id('a'), "abc".to_string());
    // The first character that is neither alphanumeric nor underscore stays
    // readable.
    assert_eq!(ts.buffer.next_char(), Some('-'));

    assert!(is_id_char('x'));
    assert!(is_id_char('7'));
    assert!(is_id_char('_'));
    assert!(!is_id_char('-'));
    assert!(!is_id_char(' '));
}

#[test]
fn unicode_letters_scan_as_identifiers() {
    // U+00E9 is alphabetic, so it starts and continues identifiers, exactly
    // as Unicode classification directs.
    let mut ts = stream_with("caf\u{e9}_2 \u{e9}tat,", &[',']);
    assert_eq!(ts.next_token().unwrap(), Token::Identifier("caf\u{e9}_2".to_string()));
    assert_eq!(ts.next_token().unwrap(), Token::Identifier("\u{e9}tat".to_string()));
    assert_eq!(ts.next_token().unwrap(), Token::End);
    assert!(is_id_char('\u{e9}'));

    let mut ts2 = stream_with("\u{e9}*,", &[',']);
    assert_eq!(
        parse_regexp(&mut ts2).unwrap(),
        Ast::Star(Box::new(Ast::Symbol("\u{e9}".to_string())))
    );
}

#[test]
fn terminator_set_membership() {
    assert!(is_terminator(',', &[',', ';']));
    assert!(is_terminator(';', &[',', ';']));
    assert!(!is_terminator('.', &[',', ';']));
    assert!(!is_terminator(',', &[]));
}
