use rslex::ast::Ast;
use rslex::ast::ClassItem;
use rslex::parser::parse_character_class;
use rslex::parser::parse_regexp;
use rslex::source::CharSource;
use rslex::token::ParseError;
use rslex::token::Token;
use rslex::token::TokenStream;

fn stream(input: &str) -> TokenStream {
    TokenStream::new(CharSource::new(input.chars().collect()), vec![','])
}

#[test]
fn test_parse_string_ts() {
    let mut ts1 = stream("abc'* ");
    assert_eq!(ts1.parse_string('\'').unwrap(), "abc".to_string());
    assert_eq!(ts1.buffer.next_char(), Some('*'));

    let mut ts2 = stream("abc'def\"  ");
    assert_eq!(ts2.parse_string('"').unwrap(), "abc'def".to_string());
    assert_eq!(ts2.buffer.next_char(), Some(' '));
}

#[test]
fn unclosed_string_ts() {
    let mut ts1 = stream("abc'def  ");
    assert_eq!(ts1.parse_string('"').unwrap_err(), ParseError::UnterminatedLiteral('"'));
}

#[test]
fn test_parse_id_ts() {
    let mut ts1 = stream("abc'* ");
    assert_eq!(ts1.parse_id('x'), "xabc".to_string());
    assert_eq!(ts1.buffer.next_char(), Some('\''));

    let mut ts2 = stream("bc_def   ");
    assert_eq!(ts2.parse_id('a'), "abc_def".to_string());

    let mut ts3 = stream("_times|'xy')*   ");
    assert_eq!(ts3.parse_id('n'), "n_times".to_string());
    assert_eq!(ts3.buffer.next_char(), Some('|'));

    let mut ts4 = stream(" +xy)*   ");
    assert_eq!(ts4.parse_id('n'), "n".to_string());
    assert_eq!(ts4.buffer.next_char(), Some(' '));
    assert_eq!(ts4.buffer.next_char(), Some('+'));
    assert_eq!(ts4.buffer.next_char(), Some('x'));
    assert_eq!(ts4.parse_id('x'), "xy".to_string());
}

#[test]
fn test_next_token_raw() {
    let mut ts1 = stream("'return'");
    assert_eq!(ts1.next_token().unwrap(), Token::StringLiteral("return".to_string()));

    let mut ts2 = stream("return");
    assert_eq!(ts2.next_token().unwrap(), Token::Identifier("return".to_string()));
    ts2.return_token(Token::Identifier("return".to_string()));
    assert_eq!(ts2.next_token().unwrap(), Token::Identifier("return".to_string()));
    assert_eq!(ts2.next_token().unwrap(), Token::Eof);

    let mut ts3 = stream("(['a'-'z'])(['A'-'Z'])*");
    assert_eq!(ts3.next_token().unwrap(), Token::LParen);
    assert_eq!(ts3.next_token().unwrap(), Token::LBracket);
    assert_eq!(ts3.next_token().unwrap(), Token::StringLiteral("a".to_string()));
    assert_eq!(ts3.next_token().unwrap(), Token::Dash);
    assert_eq!(ts3.next_token().unwrap(), Token::StringLiteral("z".to_string()));
    assert_eq!(ts3.next_token().unwrap(), Token::RBracket);
    assert_eq!(ts3.next_token().unwrap(), Token::RParen);
    assert_eq!(ts3.next_token().unwrap(), Token::LParen);

    assert_eq!(ts3.peek, None);
    ts3.return_token(Token::LParen);
    assert!(!ts3.peek.is_none());
    assert_eq!(ts3.next_token().unwrap(), Token::LParen);
    assert_eq!(ts3.peek, None);

    assert_eq!(ts3.next_token().unwrap(), Token::LBracket);
    assert_eq!(ts3.next_token().unwrap(), Token::StringLiteral("A".to_string()));
    assert_eq!(ts3.next_token().unwrap(), Token::Dash);
    assert_eq!(ts3.next_token().unwrap(), Token::StringLiteral("Z".to_string()));
    assert_eq!(ts3.next_token().unwrap(), Token::RBracket);
    assert_eq!(ts3.next_token().unwrap(), Token::RParen);
    assert_eq!(ts3.next_token().unwrap(), Token::Star);
    assert_eq!(ts3.next_token().unwrap(), Token::Eof);

    let mut ts4 = stream("letter \t (letter | digit)*,");
    assert_eq!(ts4.next_token().unwrap(), Token::Identifier("letter".to_string()));
    assert_eq!(ts4.next_token().unwrap(), Token::LParen);
    assert_eq!(ts4.next_token().unwrap(), Token::Identifier("letter".to_string()));
    assert_eq!(ts4.next_token().unwrap(), Token::Bar);
    assert_eq!(ts4.next_token().unwrap(), Token::Identifier("digit".to_string()));
    assert_eq!(ts4.next_token().unwrap(), Token::RParen);
    assert_eq!(ts4.next_token().unwrap(), Token::Star);
    assert_eq!(ts4.next_token().unwrap(), Token::End);

    let mut ts5 = stream("let  & dig,");
    assert_eq!(ts5.next_token().unwrap(), Token::Identifier("let".to_string()));
    assert_eq!(ts5.next_token().unwrap(), Token::Error('&'));
}

#[test]
fn test_parse_charclass() {
    let mut ts1 = stream("'A'-'Z'],");
    assert_eq!(
        parse_character_class(&mut ts1).unwrap(),
        Ast::CharClass(vec![ClassItem::Range('A', 'Z')])
    );
    assert_eq!(ts1.next_token().unwrap(), Token::End);

    let mut ts2 = stream("]");
    assert_eq!(parse_character_class(&mut ts2).unwrap(), Ast::CharClass(vec![]));

    let mut ts3 = stream("'abcABC']");
    assert_eq!(
        parse_character_class(&mut ts3).unwrap(),
        Ast::CharClass(vec![ClassItem::Singles("abcABC".to_string())])
    );

    let mut ts4 = stream("'ab''cd''0'-'9''55']");
    assert_eq!(
        parse_character_class(&mut ts4).unwrap(),
        Ast::CharClass(vec![
            ClassItem::Singles("ab".to_string()),
            ClassItem::Singles("cd".to_string()),
            ClassItem::Range('0', '9'),
            ClassItem::Singles("55".to_string()),
        ])
    );
}

#[test]
fn test_bad_charclass() {
    let mut ts1 = stream("'A'--'Z'],");
    assert_eq!(
        parse_character_class(&mut ts1).unwrap_err(),
        ParseError::ClassRangeNotLiteral(Token::Dash)
    );
}

#[test]
fn test_bad_charclass2() {
    let mut ts1 = stream("'A'*'Z'],");
    assert_eq!(
        parse_character_class(&mut ts1).unwrap_err(),
        ParseError::UnexpectedClassToken(Token::Star)
    );
}

#[test]
fn test_parse_regexp() {
    let mut ts1 = stream("letter,");
    assert_eq!(parse_regexp(&mut ts1).unwrap(), Ast::Symbol("letter".to_string()));

    let mut ts2 = stream("letter*,");
    assert_eq!(
        parse_regexp(&mut ts2).unwrap(),
        Ast::Star(Box::new(Ast::Symbol("letter".to_string())))
    );

    let mut ts3 = stream("letter (letter | digit)*,");
    assert_eq!(
        parse_regexp(&mut ts3).unwrap(),
        Ast::Concat(
            Box::new(Ast::Symbol("letter".to_string())),
            Box::new(Ast::Star(Box::new(Ast::Union(
                Box::new(Ast::Symbol("letter".to_string())),
                Box::new(Ast::Symbol("digit".to_string())),
            )))),
        )
    );
    assert_eq!(ts3.next_token().unwrap(), Token::End);

    let mut ts4 = stream("['0'-'9']+ '.' ['0'-'9']+,");
    assert_eq!(
        parse_regexp(&mut ts4).unwrap(),
        Ast::Concat(
            Box::new(Ast::OnePlus(Box::new(Ast::CharClass(vec![ClassItem::Range('0', '9')])))),
            Box::new(Ast::Concat(
                Box::new(Ast::Literal(".".to_string())),
                Box::new(Ast::OnePlus(Box::new(Ast::CharClass(vec![ClassItem::Range(
                    '0', '9'
                )])))),
            )),
        )
    );
}
