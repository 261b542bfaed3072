use fused::Span;
use fused::ast::{Parse, ParseError, Spanned};
use fused::ast::expr::LitBool;
use fused::ast::number::{LitNumber, Number};
use fused::ast::grouped::{Braced, ExprGrouped, Parenthesized};
use fused::ast::ident::{Ident, is_keyword};
use fused::ast::keywords::{
    Break, Class, Continue, Else, ElseIf, Enum, Fn, For, If, Impl, In, Keyword, Let, Return, Struct,
    Super, This, While,
};
use fused::ast::modules::{UsePath, UsePathSegment};
use fused::ast::operations::{BinaryType, read_operator};
use fused::ast::path::{ExprPath, PathSegment};
use fused::ast::punct::{Comma, Dot};
use fused::ast::separated::Separated;
use fused::ast::simple;
use fused::ast::stream::ParseStream;
use fused::ast::string::LitString;
use fused::tokens::{Token, TokenType};
use fused::tokens::literal::{LiteralNumber, NumberType, TokenLiteral};
use fused::tokens::stream::TokenStream;

fn stream_of(text: &str) -> ParseStream {
    ParseStream::new(TokenStream::from_string(text).unwrap())
}

#[test]
fn test_bools() {
    let stream = TokenStream::from_string("true false").unwrap();
    let mut stream = ParseStream::new(stream);
    let token = LitBool::parse(&mut stream).unwrap();
    assert_eq!(token.value, true);
    assert_eq!(token.span, (0..4).into());
    let token = LitBool::parse(&mut stream).unwrap();
    assert_eq!(token.value, false);
    assert_eq!(token.span, (5..10).into());
}

#[test]
fn ident_test_ident() {
    let tokens = TokenStream::from_string("name").unwrap();
    let mut stream = ParseStream::new(tokens);

    let ident = Ident::parse(&mut stream).unwrap();
    assert_eq!(ident.name, "name");
}

#[test]
fn test_keyword() {
    let tokens = TokenStream::from_string("let").unwrap();
    let mut stream = ParseStream::new(tokens);

    let ident = Ident::parse(&mut stream);
    assert!(ident.is_err());
}

#[test]
fn test_escaped_keyword() {
    let tokens = TokenStream::from_string("@let").unwrap();
    let mut stream = ParseStream::new(tokens);

    let ident = Ident::parse(&mut stream).unwrap();
    assert_eq!(ident.name, "let");
}

#[test]
fn test_keywords() {
    let stream = TokenStream::from_string(
        "if else elif while for in break continue return fn let class enum struct impl this super",
    )
    .unwrap();
    let mut stream = ParseStream::new(stream);

    assert_eq!(stream.parse::<If>().unwrap(), If::new((0..2).into()));
    assert_eq!(stream.parse::<Else>().unwrap(), Else::new((3..7).into()));
    assert_eq!(stream.parse::<ElseIf>().unwrap(), ElseIf::new((8..12).into()));
    assert_eq!(stream.parse::<While>().unwrap(), While::new((13..18).into()));
    assert_eq!(stream.parse::<For>().unwrap(), For::new((19..22).into()));
    assert_eq!(stream.parse::<In>().unwrap(), In::new((23..25).into()));
    assert_eq!(stream.parse::<Break>().unwrap(), Break::new((26..31).into()));
    assert_eq!(stream.parse::<Continue>().unwrap(), Continue::new((32..40).into()));
    assert_eq!(stream.parse::<Return>().unwrap(), Return::new((41..47).into()));
    assert_eq!(stream.parse::<Fn>().unwrap(), Fn::new((48..50).into()));
    assert_eq!(stream.parse::<Let>().unwrap(), Let::new((51..54).into()));
    assert_eq!(stream.parse::<Class>().unwrap(), Class::new((55..60).into()));
    assert_eq!(stream.parse::<Enum>().unwrap(), Enum::new((61..65).into()));
    assert_eq!(stream.parse::<Struct>().unwrap(), Struct::new((66..72).into()));
    assert_eq!(stream.parse::<Impl>().unwrap(), Impl::new((73..77).into()));
    assert_eq!(stream.parse::<This>().unwrap(), This::new((78..82).into()));
    assert_eq!(stream.parse::<Super>().unwrap(), Super::new((83..88).into()));
}

#[test]
fn test_regular_ident() {
    let stream = TokenStream::from_string("test").unwrap();
    let mut stream = ParseStream::new(stream);

    assert!(matches!(stream.parse::<If>(), Err(_)));
}

#[test]
fn test_use_path() {
    let tokens = TokenStream::from_string("use test.test.test").unwrap();
    let mut stream = ParseStream::new(tokens);

    let path = stream.parse::<UsePath>().unwrap();

    assert!(path.regular.len() == 3);
    assert!(path.extract.is_none());
}

#[test]
fn test_simple_extract() {
    let tokens = TokenStream::from_string("use test.test { test } ").unwrap();
    let mut stream = ParseStream::new(tokens);

    let path = stream.parse::<UsePath>().unwrap();

    assert!(path.regular.len() == 2);
    assert!(path.extract.is_some());
    assert!(path.extract.unwrap().len() == 1);
}

#[test]
fn test_multiple_extract() {
    let tokens = TokenStream::from_string("use test.test { test.test { test }, test2 }").unwrap();
    let mut stream = ParseStream::new(tokens);

    let path = stream.parse::<UsePath>().unwrap();

    assert!(path.regular.len() == 2);
    assert!(path.extract.is_some());
    assert!(path.extract.unwrap().len() == 2);
}

#[test]
fn test_simple_wildcard() {
    let tokens = TokenStream::from_string("use test.test.*").unwrap();
    let mut stream = ParseStream::new(tokens);

    let path = stream.parse::<UsePath>().unwrap();

    assert!(path.regular.len() == 3);
    assert!(path.extract.is_none());
}

#[test]
fn test_wildcard_extract() {
    let tokens = TokenStream::from_string("use test.test { *, test.one } ").unwrap();
    let mut stream = ParseStream::new(tokens);

    let path = stream.parse::<UsePath>().unwrap();

    assert_eq!(path.regular.len(), 2);
    assert!(path.extract.is_some());
    assert_eq!(path.extract.unwrap().len(), 2);
}

#[test]
fn test_simple_path() {
    let tokens = TokenStream::from_string("name.field").unwrap();
    let mut stream = ParseStream::new(tokens);
    let path = stream.parse::<ExprPath>().unwrap();
    assert_eq!(path.segments.len(), 2);
}

#[test]
fn test_path_with_generics() {
    let tokens = TokenStream::from_string("name<type1, type2>").unwrap();
    let mut stream = ParseStream::new(tokens);
    let path = stream.parse::<ExprPath>().unwrap();
    assert_eq!(path.segments.len(), 1);
    assert!(matches!(path.segments.first().unwrap(), PathSegment::Generics(_, _)))
}

#[test]
fn path_test_complex() {
    let tokens = TokenStream::from_string("name<type1, type2>.field.method<type3>").unwrap();
    let mut stream = ParseStream::new(tokens);
    let path = stream.parse::<ExprPath>().unwrap();
    assert_eq!(path.segments.len(), 3);
    assert!(matches!(path.segments.first().unwrap(), PathSegment::Generics(_, _)));
    assert!(matches!(path.segments.get(1).unwrap(), PathSegment::Ident(_)));
}

#[test]
fn string_test_string() {
    let tokens = TokenStream::from_string("\"Hello, world!\"").unwrap();
    let mut stream = ParseStream::new(tokens);
    let string = LitString::parse(&mut stream).unwrap();
    assert_eq!(string.value, "Hello, world!");
}

// Further cases.

#[test]
fn failed_parse_takes_nothing() {
    let mut stream = stream_of("let x");
    assert!(Ident::parse(&mut stream).is_err());
    assert!(stream.parse::<Let>().is_ok());
    let x = Ident::parse(&mut stream).unwrap();
    assert_eq!(x.name, "x");
    assert_eq!(x.span(), Span::new(4, 5));
    assert_eq!(stream.current().content, TokenType::EOF);
}

#[test]
fn unexpected_token_names_expected_kind() {
    let mut stream = stream_of("1");
    match Ident::parse(&mut stream) {
        Err(ParseError::UnexpectedToken { expected, got }) => {
            assert_eq!(expected, "identifier");
            assert_eq!(got.span, Span::new(0, 1));
        },
        _ => panic!("expected an error"),
    }
    match stream.parse::<If>() {
        Err(ParseError::UnexpectedToken { expected, .. }) => assert_eq!(expected, "if"),
        _ => panic!("expected an error"),
    }
    match stream.parse::<Dot>() {
        Err(ParseError::UnexpectedToken { expected, .. }) => assert_eq!(expected, "Dot"),
        _ => panic!("expected an error"),
    }
}

#[test]
fn keyword_list() {
    assert!(is_keyword("while"));
    assert!(is_keyword("false"));
    assert!(!is_keyword("elif"));
    assert!(!is_keyword("name"));
}

#[test]
fn separated_items() {
    let mut stream = stream_of("a, b, c d");
    let list = Separated::<Ident, Comma>::parse(&mut stream).unwrap();
    let names: Vec<String> = list.iter().map(|i| i.name.clone()).collect();
    assert_eq!(names, vec!["a".to_string(), "b".to_string(), "c".to_string()]);
    assert_eq!(list.span(), Span::new(0, 7));
    let d = Ident::parse(&mut stream).unwrap();
    assert_eq!(d.name, "d");
}

#[test]
fn braced_reads_inside_group() {
    let mut stream = stream_of("{ inner } after");
    let braced = stream.parse::<Braced<Ident>>().unwrap();
    assert_eq!(braced.0.name, "inner");
    let after = Ident::parse(&mut stream).unwrap();
    assert_eq!(after.name, "after");
    let mut stream = stream_of("[x]");
    assert!(stream.parse::<Parenthesized<Ident>>().is_err());
    match stream.parse::<ExprGrouped<Ident>>().unwrap() {
        ExprGrouped::Bracketed(b) => assert_eq!(b.0.name, "x"),
        _ => panic!("expected brackets"),
    }
}

#[test]
fn generics_without_close_leave_lt_taken() {
    let mut stream = stream_of("a<b c");
    let path = stream.parse::<ExprPath>().unwrap();
    assert_eq!(path.segments.len(), 1);
    assert!(matches!(path.segments[0], PathSegment::Ident(_)));
    let next = Ident::parse(&mut stream).unwrap();
    assert_eq!(next.name, "b");
}

#[test]
fn empty_path_is_error() {
    let mut stream = stream_of("1");
    match stream.parse::<ExprPath>() {
        Err(ParseError::UnexpectedToken { expected, .. }) => assert_eq!(expected, "path"),
        _ => panic!("expected an error"),
    }
}

#[test]
fn use_path_span_and_segments() {
    let mut stream = stream_of("use a.* { b }");
    let path = stream.parse::<UsePath>().unwrap();
    assert!(matches!(path.regular[1], UsePathSegment::All(_)));
    assert_eq!(path.span(), Span::new(4, 11));
    let mut stream = stream_of("use a.1");
    match stream.parse::<UsePath>() {
        Err(ParseError::UnexpectedToken { expected, .. }) => {
            assert_eq!(expected, "<module pat/wildcard>")
        },
        _ => panic!("expected an error"),
    }
}

#[test]
fn skip_newlines_and_cursor() {
    let mut stream = stream_of("\n\nx");
    stream.skip_newlines();
    assert!(matches!(stream.current().content, TokenType::Ident(_)));
    let cursor = stream.cursor();
    assert!(matches!(cursor.current().content, TokenType::Ident(_)));
    assert_eq!(cursor.next().content, TokenType::EOF);
}

#[test]
fn operators_and_precedence() {
    let mut stream = stream_of("+= x");
    assert_eq!(read_operator(&mut stream), Some(BinaryType::AddAssign));
    assert_eq!(read_operator(&mut stream), None);
    assert_eq!(BinaryType::Mul.precedence(), 9);
    assert_eq!(BinaryType::Access.precedence(), 10);
    assert_eq!(BinaryType::Assign.precedence(), 0);
    assert!(!BinaryType::AddAssign.left_associative());
    assert!(BinaryType::Sub.left_associative());
    let mut stream = stream_of("<< y");
    assert!(!simple::BinaryType::Lt.matches(&mut stream));
    assert!(simple::BinaryType::LeftShift.matches(&mut stream));
    assert!(matches!(stream.current().content, TokenType::Ident(_)));
}

#[test]
fn distinct_puncts_give_distinct_operators() {
    let mut stream = stream_of("+ += - -= . =");
    let mut seen = Vec::new();
    while let Some(op) = read_operator(&mut stream) {
        assert!(!seen.contains(&op));
        seen.push(op);
    }
    assert_eq!(
        seen,
        vec![
            BinaryType::Add,
            BinaryType::AddAssign,
            BinaryType::Sub,
            BinaryType::SubAssign,
            BinaryType::Access,
            BinaryType::Assign,
        ]
    );
}

#[test]
fn ident_display_quotes_name() {
    let mut stream = stream_of("name");
    let ident = Ident::parse(&mut stream).unwrap();
    assert_eq!(ident.display(), "`name`");
}

#[test]
fn numbers_take_their_kind_from_the_literal() {
    let mut stream = stream_of("42 0xff 0b101 3.25 1_000");
    let n = LitNumber::parse(&mut stream).unwrap();
    assert_eq!(n.number(), &Number::UInt(42));
    assert_eq!(n.span(), (0..2).into());
    assert_eq!(LitNumber::parse(&mut stream).unwrap().number(), &Number::UInt(255));
    assert_eq!(LitNumber::parse(&mut stream).unwrap().number(), &Number::UInt(5));
    assert_eq!(LitNumber::parse(&mut stream).unwrap().number(), &Number::Float("3.25".to_string()));
    assert_eq!(LitNumber::parse(&mut stream).unwrap().number(), &Number::UInt(1000));
    assert!(LitNumber::parse(&mut stream).is_err());
}

#[test]
fn numbers_too_large_are_bad_literals() {
    let mut stream = stream_of("18446744073709551616");
    assert_eq!(
        LitNumber::parse(&mut stream),
        Err(ParseError::BadLiteral("number too large to fit in target type".to_string()))
    );
    let mut stream = stream_of("18446744073709551615");
    assert_eq!(LitNumber::parse(&mut stream).unwrap().number(), &Number::UInt(u64::MAX));
}

fn number_token(digits: &str) -> Token {
    Token {
        content: TokenType::Literal(TokenLiteral::Number(LiteralNumber {
            ty: NumberType::Decimal,
            digits: digits.to_string(),
        })),
        span: (0..digits.len()).into(),
    }
}

#[test]
fn signed_numbers_are_signed_integers() {
    let tokens = vec![number_token("-17"), number_token("+5"), number_token("-9223372036854775809"), number_token("-")];
    let mut stream = ParseStream::new(TokenStream::from_vec(tokens));
    assert_eq!(LitNumber::parse(&mut stream).unwrap().number(), &Number::Int(-17));
    assert_eq!(LitNumber::parse(&mut stream).unwrap().number(), &Number::Int(5));
    assert_eq!(
        LitNumber::parse(&mut stream),
        Err(ParseError::BadLiteral("number too small to fit in target type".to_string()))
    );
}

#[test]
fn a_lone_sign_is_an_invalid_digit() {
    let mut stream = ParseStream::new(TokenStream::from_vec(vec![number_token("-")]));
    assert_eq!(
        LitNumber::parse(&mut stream),
        Err(ParseError::BadLiteral("invalid digit found in string".to_string()))
    );
}
