use fused::Span;
use fused::file::{Cursor, SourceCursor, EOF};
use fused::location::SourceLocation;
use fused::tokens::{Token, TokenError, TokenType};
use fused::tokens::charset::{GroupDelim, Punct};
use fused::tokens::comment::TokenComment;
use fused::tokens::group::{Delim, TokenGroup};
use fused::tokens::ident::TokenIdent;
use fused::tokens::literal::{LiteralNumber, LiteralString, NumberType, StringType, TokenLiteral};
use fused::tokens::punct::TokenPunct;
use fused::tokens::spacing::{count_spaces, read_newline};
use fused::tokens::stream::TokenStream;

#[test]
fn test_singleline() {
    let mut cursor = Cursor::new("# Hello, world!\n");
    let comment = TokenComment::try_read(&mut cursor).unwrap().unwrap();
    assert_eq!(comment, TokenComment::Line(" Hello, world!".to_string()));
    assert_eq!(cursor.current(), '\0');
}

#[test]
fn test_multiline() {
    let mut cursor = Cursor::new("#- Hello,\n world! -#");
    let comment = TokenComment::try_read(&mut cursor).unwrap().unwrap();
    assert_eq!(comment, TokenComment::Block(" Hello,\n world! ".to_string()));
    assert_eq!(cursor.current(), '\0');
}

#[test]
fn group_test_paren() {
    let mut cursor = Cursor::new("(test)");
    let group = TokenGroup::try_read(&mut cursor).unwrap().unwrap();
    assert_eq!(group.delim, Delim::Paren);
    assert_eq!(group.tokens.len(), 1);
    assert_eq!(
        group.tokens.first().unwrap().content,
        TokenType::Ident(TokenIdent::new("test".to_string()))
    );
}

#[test]
fn group_test_bracket() {
    let mut cursor = Cursor::new("[test]");
    let group = TokenGroup::try_read(&mut cursor).unwrap().unwrap();
    assert_eq!(group.delim, Delim::Bracket);
    assert_eq!(group.tokens.len(), 1);
    assert_eq!(
        group.tokens.first().unwrap().content,
        TokenType::Ident(TokenIdent::new("test".to_string()))
    );
}

#[test]
fn test_braces() {
    let mut cursor = Cursor::new("{test}");
    let group = TokenGroup::try_read(&mut cursor).unwrap().unwrap();
    assert_eq!(group.delim, Delim::Brace);
    assert_eq!(group.tokens.len(), 1);
    assert_eq!(
        group.tokens.first().unwrap().content,
        TokenType::Ident(TokenIdent::new("test".to_string()))
    );
}

#[test]
fn test_angle() {
    let mut cursor = Cursor::new("<test>");
    let group = TokenGroup::try_read(&mut cursor).unwrap().unwrap();
    assert_eq!(group.delim, Delim::Angle);
    assert_eq!(group.tokens.len(), 1);
    assert_eq!(
        group.tokens.first().unwrap().content,
        TokenType::Ident(TokenIdent::new("test".to_string()))
    );
}

#[test]
fn test_nonterminated() {
    let mut cursor = Cursor::new("(test");
    let group = TokenGroup::try_read(&mut cursor).unwrap();
    assert_eq!(group, None);
}

#[test]
fn test_ident() {
    let mut cursor = SourceCursor::new("test");
    let ident = TokenIdent::try_read(&mut cursor).unwrap().unwrap();
    assert_eq!(ident.name, "test");
    assert_eq!(ident.escaped, false);
}

#[test]
fn test_escaped_ident() {
    let mut cursor = SourceCursor::new("@test");
    let ident = TokenIdent::try_read(&mut cursor).unwrap().unwrap();
    assert_eq!(ident.name, "test");
    assert_eq!(ident.escaped, true);
}

#[test]
fn test_nonvalid_start() {
    let mut cursor = SourceCursor::new("1test");
    let ident = TokenIdent::try_read(&mut cursor).unwrap();
    assert!(ident.is_none());
}

#[test]
fn test_nonvalid_char() {
    let mut cursor = SourceCursor::new("te+t");
    let ident = TokenIdent::try_read(&mut cursor).unwrap().unwrap();
    assert_eq!(ident.name, "te");
    assert_eq!(ident.escaped, false);

    assert_eq!(cursor.current(), '+');
    cursor.advance();

    let next_ident = TokenIdent::try_read(&mut cursor).unwrap().unwrap();
    assert_eq!(next_ident.name, "t");
    assert_eq!(next_ident.escaped, false);
}

#[test]
fn test_integer() {
    let mut cursor = SourceCursor::new("123");
    let number = LiteralNumber::try_read(&mut cursor).unwrap().unwrap();
    assert_eq!(number.ty, NumberType::Decimal);
    assert_eq!(number.digits, "123".to_string());
}

#[test]
fn test_decimals() {
    let mut cursor = SourceCursor::new("123.456");
    let number = LiteralNumber::try_read(&mut cursor).unwrap().unwrap();
    assert_eq!(number.ty, NumberType::Decimal);
    assert_eq!(number.digits, "123.456".to_string());
}

#[test]
fn literal_test_binary() {
    let mut cursor = SourceCursor::new("0b1010");
    let number = LiteralNumber::try_read(&mut cursor).unwrap().unwrap();
    assert_eq!(number.ty, NumberType::Binary);
    assert_eq!(number.digits, "1010".to_string());
}

#[test]
fn test_hexadecimal() {
    let mut cursor = SourceCursor::new("0x123abc");
    let number = LiteralNumber::try_read(&mut cursor).unwrap().unwrap();
    assert_eq!(number.ty, NumberType::Hexadecimal);
    assert_eq!(number.digits, "123abc".to_string());
}

#[test]
fn literal_test_string() {
    let mut cursor = SourceCursor::new("\"Hello, world!\"");

    let string = LiteralString::try_read(&mut cursor).unwrap().unwrap();
    assert_eq!(string.ty, StringType::Regular);
    assert_eq!(string.content, "Hello, world!".to_string());
}

#[test]
fn escaped_string() {
    for n in 1..5 {
        let test_str = format!("@{q}Hello, world!{q}", q = "\"".repeat(n));
        let mut cursor = SourceCursor::new(&test_str);
        let string = LiteralString::try_read(&mut cursor).unwrap().unwrap();
        assert_eq!(string.ty, StringType::Raw(n));
        assert_eq!(string.content, "Hello, world!".to_string());
    }
}

#[test]
fn contains_quotes() {
    let test_string = r#" @""Hello,"World" """#.to_string();
    let mut cursor = SourceCursor::new(&test_string);
    cursor.advance();
    let string = LiteralString::try_read(&mut cursor).unwrap().unwrap();
    assert_eq!(string.ty, StringType::Raw(2));
    assert_eq!(string.content, r#"Hello,"World" "#.to_string());
}

#[test]
fn test_span_start() {
    let mut cursor = SourceCursor::new("test");
    let token = Token::try_read(&mut cursor).unwrap();
    assert_eq!(token.span.start, 0);
}

#[test]
fn test_span_end() {
    let mut cursor = SourceCursor::new("test");
    let token = Token::try_read(&mut cursor).unwrap();
    assert_eq!(token.span.end, 4);
}

#[test]
fn test_nonzero_start() {
    let mut cursor = SourceCursor::new(" test");
    cursor.advance();
    let token = Token::try_read(&mut cursor).unwrap();
    assert_eq!(token.span.start, 1);
}

#[test]
fn test_length() {
    let mut cursor = SourceCursor::new("test");
    let token = Token::try_read(&mut cursor).unwrap();
    assert_eq!(token.span.len(), 4);
}

#[test]
fn test_single_puncts() {
    let mut cursor = SourceCursor::new("+ - * / % ^ & | ~ ? $ . \\ < > ! ; : ,");
    let expected = [
        TokenPunct::Plus,
        TokenPunct::Minus,
        TokenPunct::Star,
        TokenPunct::Slash,
        TokenPunct::Percent,
        TokenPunct::Caret,
        TokenPunct::Ampersand,
        TokenPunct::Pipe,
        TokenPunct::Tilde,
        TokenPunct::Question,
        TokenPunct::Dollar,
        TokenPunct::Dot,
        TokenPunct::Backslash,
        TokenPunct::Lt,
        TokenPunct::Gt,
        TokenPunct::Exclamation,
        TokenPunct::SemiColon,
        TokenPunct::Colon,
    ];
    for punct in expected {
        assert_eq!(TokenPunct::try_read(&mut cursor).unwrap(), Some(punct));
        cursor.advance();
    }
    assert_eq!(TokenPunct::try_read(&mut cursor).unwrap(), Some(TokenPunct::Comma));
}

#[test]
fn punct_test_complex() {
    let mut cursor = SourceCursor::new("+= -= *= /= ^= |= <= <<= || && == >>= != => -> &&= ||=");
    let expected = [
        TokenPunct::PlusEq,
        TokenPunct::MinusEq,
        TokenPunct::StarEq,
        TokenPunct::SlashEq,
        TokenPunct::CaretEq,
        TokenPunct::PipeEq,
        TokenPunct::LtEq,
        TokenPunct::DoubleLtEq,
        TokenPunct::DoublePipe,
        TokenPunct::DoubleAmpersand,
        TokenPunct::DoubleEq,
        TokenPunct::DoubleGtEq,
        TokenPunct::NotEq,
        TokenPunct::FatArrow,
        TokenPunct::Arrow,
        TokenPunct::DoubleAmpersandEq,
    ];
    for punct in expected {
        assert_eq!(TokenPunct::try_read(&mut cursor).unwrap(), Some(punct));
        cursor.advance();
    }
    assert_eq!(TokenPunct::try_read(&mut cursor).unwrap(), Some(TokenPunct::DoublePipeEq));
}

#[test]
fn test_regular_spaces() {
    let mut cursor = SourceCursor::new("    ");
    let count = count_spaces(&mut cursor);
    assert_eq!(count, 4);
}

#[test]
fn test_tab() {
    let mut cursor = SourceCursor::new("\t");
    let count = count_spaces(&mut cursor);
    assert_eq!(count, 4);
}

#[test]
fn test_mixed() {
    let mut cursor = SourceCursor::new(" \t");
    let count = count_spaces(&mut cursor);
    assert_eq!(count, 5);
}

#[test]
fn test_newlines() {
    let mut cursor = SourceCursor::new("\n\r\nHello World!");
    assert_eq!(read_newline(&mut cursor), true);
    cursor.advance();
    assert_eq!(read_newline(&mut cursor), true);
    cursor.advance();
    assert_eq!(read_newline(&mut cursor), false);
}

#[test]
fn test_from_string() {
    let mut stream = TokenStream::from_string("test 1").unwrap();
    assert_eq!(stream.len(), 2);
    assert!(matches!(stream.advance().content, TokenType::Ident(_)));
    assert!(matches!(stream.advance().content, TokenType::Literal(_)));
    assert!(matches!(stream.advance().content, TokenType::EOF));
}

#[test]
fn test_invalid_eof() {
    let stream = TokenStream::from_string("0x");
    assert_eq!(stream.err(), Some(TokenError::UnexpectedEof));
}

// Further cases.

#[test]
fn span_join_takes_outer_ends() {
    let a = Span::new(2, 5);
    let b = Span::new(7, 9);
    assert_eq!(a.join(b), Span::new(2, 9));
    let c: Span = (3..8).into();
    assert_eq!(c, Span::new(3, 8));
    assert_eq!(c.len(), 5);
}

#[test]
fn cursor_at_end_reports_eof_char() {
    let mut cursor = Cursor::new("ab");
    assert_eq!(cursor.current(), 'a');
    assert_eq!(cursor.next(), 'b');
    assert_eq!(cursor.nth(2), EOF);
    assert_eq!(cursor.advance(), 'a');
    assert_eq!(cursor.advance(), 'b');
    assert!(cursor.eof());
    assert_eq!(cursor.advance(), EOF);
    assert_eq!(cursor.pos(), 3);
}

#[test]
fn skip_whitespaces_stops_at_text() {
    let mut cursor = Cursor::new(" \t x");
    cursor.skip_whitespaces();
    assert_eq!(cursor.current(), 'x');
    assert_eq!(cursor.pos(), 3);
}

#[test]
fn location_moves_by_column_and_line() {
    let mut loc = SourceLocation::default();
    loc.advance();
    loc.advance();
    assert_eq!(loc.column, 2);
    loc.newline();
    assert_eq!(loc.line, 1);
    assert_eq!(loc.column, 0);
}

#[test]
fn invalid_char_reports_the_char_itself() {
    let mut cursor = SourceCursor::new("`ab");
    assert_eq!(Token::try_read(&mut cursor), Err(TokenError::InvalidChar('`')));
    assert_eq!(cursor.pos(), 1);
}

#[test]
fn unterminated_string_is_eof_error() {
    let mut cursor = SourceCursor::new("\"abc");
    assert_eq!(LiteralString::try_read(&mut cursor), Err(TokenError::UnexpectedEof));
}

#[test]
fn newline_and_eof_tokens() {
    let mut cursor = SourceCursor::new("a\r\n");
    let first = Token::try_read(&mut cursor).unwrap();
    assert!(matches!(first.content, TokenType::Ident(_)));
    let second = Token::try_read(&mut cursor).unwrap();
    assert_eq!(second.content, TokenType::Newline);
    assert_eq!(second.span, Span::new(1, 3));
    let third = Token::try_read(&mut cursor).unwrap();
    assert_eq!(third.content, TokenType::EOF);
    assert_eq!(third.span, Span::new(3, 3));
}

#[test]
fn nested_groups_keep_their_tokens() {
    let mut stream = TokenStream::from_string("(a [b])").unwrap();
    assert_eq!(stream.len(), 1);
    let group = stream.advance();
    match group.content {
        TokenType::Group(g) => {
            assert_eq!(g.delim, Delim::Paren);
            assert_eq!(g.tokens.len(), 2);
            match &g.tokens[1].content {
                TokenType::Group(inner) => {
                    assert_eq!(inner.delim, Delim::Bracket);
                    assert_eq!(inner.tokens.len(), 1);
                },
                _ => panic!("expected a group"),
            }
        },
        _ => panic!("expected a group"),
    }
    assert_eq!(group.span, Span::new(0, 7));
}

#[test]
fn stream_from_vec_places_end_after_last() {
    let mut source = TokenStream::from_string("x y").unwrap();
    let tokens = source.advance_to(2);
    assert_eq!(source.len(), 0);
    let stream = TokenStream::from_vec(tokens);
    assert_eq!(stream.len(), 2);
    assert_eq!(stream.nth(5).content, TokenType::EOF);
    assert_eq!(stream.nth(5).span, Span::new(2, 3));
    let empty = TokenStream::from_vec(Vec::new());
    assert_eq!(empty.current().span, Span::new(0, 1));
}

#[test]
fn stream_push_and_advance() {
    let mut stream = TokenStream::from_string("a").unwrap();
    let extra = Token { content: TokenType::Newline, span: Span::new(9, 10) };
    stream.push(extra);
    assert_eq!(stream.len(), 2);
    assert!(matches!(stream.current().content, TokenType::Ident(_)));
    assert_eq!(stream.next().content, TokenType::Newline);
    stream.advance();
    stream.advance();
    assert_eq!(stream.advance().content, TokenType::EOF);
    assert_eq!(stream.len(), 0);
}

#[test]
fn number_literal_token() {
    let mut cursor = SourceCursor::new("42");
    let token = Token::try_read(&mut cursor).unwrap();
    match token.content {
        TokenType::Literal(TokenLiteral::Number(n)) => assert_eq!(n.digits, "42"),
        _ => panic!("expected a number"),
    }
}

#[test]
fn punct_and_group_chars() {
    assert!(Punct::is_punct_char('+'));
    assert!(Punct::is_punct_char('_'));
    assert!(!Punct::is_punct_char('a'));
    assert!(GroupDelim::is_opening_char('['));
    assert!(!GroupDelim::is_opening_char('<'));
    assert_eq!(GroupDelim::from_opening('{'), Ok(GroupDelim::Braces));
    assert_eq!(GroupDelim::from_opening('x'), Err('x'));
}

#[test]
fn stream_tokens_are_in_source_order() {
    let mut stream = TokenStream::from_string("a += (b c) # note\n\"s\" 0x1f").unwrap();
    let mut previous_end = 0;
    let mut count = 0;
    while stream.len() > 0 {
        let token = stream.advance();
        assert!(previous_end <= token.span.start);
        assert!(token.span.start <= token.span.end);
        assert_ne!(token.content, TokenType::EOF);
        previous_end = token.span.end;
        count += 1;
    }
    assert_eq!(count, 6);
    let end = stream.advance();
    assert_eq!(end.content, TokenType::EOF);
    assert!(previous_end <= end.span.start);
}

#[test]
fn token_kinds_are_described() {
    let mut stream = TokenStream::from_string("x 1 + (y)\n").unwrap();
    let mut names = Vec::new();
    while stream.len() > 0 {
        names.push(stream.advance().content.describe());
    }
    assert_eq!(names, vec!["<identifier>", "<literal>", "<punct>", "<group>", "<newline>"]);
    assert_eq!(stream.advance().content.describe(), "EOF");
}
