use vstd::prelude::*;

use crate::file::{SourceCursor, char_at, consumed_to, run_end, lemma_run_end};
use crate::text::push_char;
use super::{Scan, TokenError, TokenResult, result_is};

verus! {

#[derive(Debug, Clone, PartialEq, Eq)]
pub enum TokenLiteral {
    String(LiteralString),
    Number(LiteralNumber),
}

#[derive(Debug, PartialEq, Eq, Clone)]
pub struct LiteralNumber {
    pub ty: NumberType,
    pub digits: String,
}

#[derive(Debug, Clone, Copy, PartialEq, Eq, Structural)]
pub enum NumberType {
    Decimal,
    Hexadecimal,
    Binary,
}

#[derive(Debug, PartialEq, Eq, Clone)]
pub struct LiteralString {
    pub ty: StringType,
    pub content: String,
}

#[derive(Debug, Clone, Copy, PartialEq, Eq, Structural)]
pub enum StringType {
    Regular,
    Raw(usize),
}

pub enum TokenLiteralV {
    String(StringType, Seq<char>),
    Number(NumberType, Seq<char>),
}

impl View for TokenLiteral {
    type V = TokenLiteralV;

    open spec fn view(&self) -> TokenLiteralV {
        match self {
            TokenLiteral::String(s) => TokenLiteralV::String(s.ty, s.content@),
            TokenLiteral::Number(n) => TokenLiteralV::Number(n.ty, n.digits@),
        }
    }
}

impl View for LiteralNumber {
    type V = (NumberType, Seq<char>);

    open spec fn view(&self) -> (NumberType, Seq<char>) {
        (self.ty, self.digits@)
    }
}

impl View for LiteralString {
    type V = (StringType, Seq<char>);

    open spec fn view(&self) -> (StringType, Seq<char>) {
        (self.ty, self.content@)
    }
}

pub open spec fn digit_char(c: char) -> bool {
    '0' <= c && c <= '9'
}

pub open spec fn hex_char(c: char) -> bool {
    digit_char(c) || ('a' <= c && c <= 'f') || ('A' <= c && c <= 'F')
}

pub open spec fn bin_char(c: char) -> bool {
    c == '0' || c == '1'
}

/// The digits of a decimal number at `i` and the index after it: digits and at most
/// one `.` are kept, underscores are skipped; `dot` tells whether a `.` was seen.
pub open spec fn decimal_scan(s: Seq<char>, i: int, dot: bool) -> (Seq<char>, int)
    decreases s.len() - i,
{
    if 0 <= i < s.len() {
        let c = s[i];
        if digit_char(c) {
            let (d, e) = decimal_scan(s, i + 1, dot);
            (seq![c] + d, e)
        } else if c == '.' && !dot {
            let (d, e) = decimal_scan(s, i + 1, true);
            (seq![c] + d, e)
        } else if c == '_' {
            decimal_scan(s, i + 1, dot)
        } else {
            (Seq::empty(), i)
        }
    } else {
        (Seq::empty(), i)
    }
}

proof fn lemma_decimal_scan(s: Seq<char>, i: int, dot: bool)
    requires
        0 <= i <= s.len(),
    ensures
        i <= decimal_scan(s, i, dot).1 <= s.len(),
    decreases s.len() - i,
{
    if i < s.len() {
        lemma_decimal_scan(s, i + 1, dot);
        lemma_decimal_scan(s, i + 1, true);
    }
}

/// The digits after a `0x` or `0b` prefix that starts at `i - 2`: a non-empty run of
/// digits of the base, else an error at the character that follows the prefix.
pub open spec fn radix_digits(s: Seq<char>, i: int, p: spec_fn(char) -> bool) -> (Scan<Seq<char>>, int) {
    let end = run_end(s, i, p);
    if end > i {
        (Scan::Read(s.subrange(i, end)), end)
    } else if i >= s.len() {
        (Scan::Fail(TokenError::UnexpectedEof), i)
    } else {
        (Scan::Fail(TokenError::InvalidChar(s[i])), i)
    }
}

/// The number literal at `i` and the index after it.
pub open spec fn number_at(s: Seq<char>, i: int) -> (Scan<(NumberType, Seq<char>)>, int) {
    if digit_char(char_at(s, i)) {
        if char_at(s, i) == '0' && char_at(s, i + 1) == 'x' {
            let (d, e) = radix_digits(s, i + 2, |c: char| hex_char(c));
            (
                match d {
                    Scan::Read(v) => Scan::Read((NumberType::Hexadecimal, v)),
                    Scan::Fail(err) => Scan::Fail(err),
                    _ => Scan::Stuck,
                },
                e,
            )
        } else if char_at(s, i) == '0' && char_at(s, i + 1) == 'b' {
            let (d, e) = radix_digits(s, i + 2, |c: char| bin_char(c));
            (
                match d {
                    Scan::Read(v) => Scan::Read((NumberType::Binary, v)),
                    Scan::Fail(err) => Scan::Fail(err),
                    _ => Scan::Stuck,
                },
                e,
            )
        } else {
            let (d, e) = decimal_scan(s, i, false);
            (Scan::Read((NumberType::Decimal, d)), e)
        }
    } else {
        (Scan::Absent, i)
    }
}

/// What a string body at `i` reads to, with `quotes` closing quotes and `run` quotes
/// just seen: a run of exactly `quotes` quotes closes it; a shorter or longer run
/// stands for a single `"` of the content; the end of the text is an error; a
/// backslash or `{` is not handled.
pub open spec fn string_body(s: Seq<char>, i: int, quotes: nat, run: nat) -> (Scan<Seq<char>>, int)
    decreases s.len() - i, run,
{
    if 0 <= i < s.len() && s[i] == '"' {
        string_body(s, i + 1, quotes, run + 1)
    } else if run > 0 {
        if run == quotes {
            (Scan::Read(Seq::empty()), i)
        } else {
            prepend('"', string_body(s, i, quotes, 0))
        }
    } else if i < 0 || i >= s.len() {
        (Scan::Fail(TokenError::UnexpectedEof), i)
    } else if s[i] == '\\' || s[i] == '{' {
        (Scan::Stuck, i)
    } else {
        prepend(s[i], string_body(s, i + 1, quotes, 0))
    }
}

pub open spec fn prepend(c: char, r: (Scan<Seq<char>>, int)) -> (Scan<Seq<char>>, int) {
    (prepend_all(seq![c], r.0), r.1)
}

pub open spec fn prepend_all(p: Seq<char>, r: Scan<Seq<char>>) -> Scan<Seq<char>> {
    match r {
        Scan::Read(v) => Scan::Read(p + v),
        other => other,
    }
}

proof fn lemma_string_body(s: Seq<char>, i: int, quotes: nat, run: nat)
    requires
        0 <= i <= s.len(),
    ensures
        i <= string_body(s, i, quotes, run).1 <= s.len(),
        !(string_body(s, i, quotes, run).0 is Absent),
    decreases s.len() - i, run,
{
    if 0 <= i < s.len() && s[i] == '"' {
        lemma_string_body(s, i + 1, quotes, run + 1);
    } else if run > 0 {
        if run != quotes {
            lemma_string_body(s, i, quotes, 0);
        }
    } else if i < s.len() && !(s[i] == '\\' || s[i] == '{') {
        lemma_string_body(s, i + 1, quotes, 0);
    }
}

proof fn lemma_prepend_all(a: Seq<char>, b: Seq<char>, r: Scan<Seq<char>>)
    ensures
        prepend_all(a, prepend_all(b, r)) == prepend_all(a + b, r),
{
    if let Scan::Read(v) = r {
        assert(a + (b + v) =~= (a + b) + v);
    }
}

/// The string literal at `i` and the index after it: `"..."`, or `@` and a run of
/// quotes that opens a raw string closed by a run of as many quotes.
pub open spec fn string_at(s: Seq<char>, i: int) -> (Scan<(StringType, Seq<char>)>, int) {
    if char_at(s, i) == '"' {
        let (b, e) = string_body(s, i + 1, 1, 0);
        (
            match b {
                Scan::Read(v) => Scan::Read((StringType::Regular, v)),
                Scan::Fail(err) => Scan::Fail(err),
                _ => Scan::Stuck,
            },
            e,
        )
    } else if char_at(s, i) == '@' && char_at(s, i + 1) == '"' {
        let qend = run_end(s, i + 1, |c: char| c == '"');
        let quotes = (qend - (i + 1)) as nat;
        let (b, e) = string_body(s, qend, quotes, 0);
        (
            match b {
                Scan::Read(v) => Scan::Read((StringType::Raw(quotes as usize), v)),
                Scan::Fail(err) => Scan::Fail(err),
                _ => Scan::Stuck,
            },
            e,
        )
    } else {
        (Scan::Absent, i)
    }
}

/// The literal at `i`: a number, else a string.
pub open spec fn literal_at(s: Seq<char>, i: int) -> (Scan<TokenLiteralV>, int) {
    let (n, e) = number_at(s, i);
    match n {
        Scan::Read(v) => (Scan::Read(TokenLiteralV::Number(v.0, v.1)), e),
        Scan::Fail(err) => (Scan::Fail(err), e),
        Scan::Stuck => (Scan::Stuck, e),
        Scan::Absent => {
            let (t, e2) = string_at(s, i);
            (
                match t {
                    Scan::Read(v) => Scan::Read(TokenLiteralV::String(v.0, v.1)),
                    Scan::Fail(err) => Scan::Fail(err),
                    Scan::Stuck => Scan::Stuck,
                    Scan::Absent => Scan::Absent,
                },
                e2,
            )
        },
    }
}

pub proof fn lemma_literal_at(s: Seq<char>, j: int)
    requires
        0 <= j <= s.len(),
    ensures
        j <= literal_at(s, j).1 <= s.len(),
        literal_at(s, j).0 is Absent ==> literal_at(s, j).1 == j,
        literal_at(s, j).0 is Read ==> literal_at(s, j).1 > j,
{
    lemma_decimal_scan(s, j, false);
    if j < s.len() && digit_char(s[j]) {
        lemma_decimal_scan(s, j + 1, false);
        lemma_decimal_scan(s, j + 1, true);
    }
    if j + 2 <= s.len() {
        lemma_run_end(s, j + 2, |c: char| hex_char(c));
        lemma_run_end(s, j + 2, |c: char| bin_char(c));
    }
    if j + 1 <= s.len() {
        lemma_string_body(s, j + 1, 1, 0);
        let qend = run_end(s, j + 1, |c: char| c == '"');
        lemma_run_end(s, j + 1, |c: char| c == '"');
        lemma_string_body(s, qend, (qend - (j + 1)) as nat, 0);
    }
}

/// The literal readers only move the cursor by consuming characters.
pub open spec fn reader_pre(c: SourceCursor) -> bool {
    &&& c.wf()
    &&& c.absolute() + c.text().len() - c.index() <= usize::MAX
}

impl TokenLiteral {
    pub fn copy(&self) -> (r: Self)
        ensures
            r@ == self@,
    {
        match self {
            TokenLiteral::String(s) => TokenLiteral::String(
                LiteralString { ty: s.ty, content: s.content.clone() },
            ),
            TokenLiteral::Number(n) => TokenLiteral::Number(
                LiteralNumber { ty: n.ty, digits: n.digits.clone() },
            ),
        }
    }

    /// Reads a literal at the cursor: a number, else a string.
    pub fn try_read(cursor: &mut SourceCursor) -> (r: TokenResult<Self>)
        requires
            reader_pre(*old(cursor)),
            !(literal_at(old(cursor).text(), old(cursor).index() as int).0 is Stuck),
        ensures
            result_is(r, literal_at(old(cursor).text(), old(cursor).index() as int).0),
            consumed_to(
                *final(cursor),
                *old(cursor),
                literal_at(old(cursor).text(), old(cursor).index() as int).1,
            ),
    {
        if let Some(number) = LiteralNumber::try_read(cursor)? {
            Ok(Some(Self::Number(number)))
        } else if let Some(string) = LiteralString::try_read(cursor)? {
            Ok(Some(Self::String(string)))
        } else {
            Ok(None)
        }
    }
}

pub(crate) fn is_digit(c: char) -> (b: bool)
    ensures
        b == digit_char(c),
{
    '0' <= c && c <= '9'
}

impl LiteralNumber {
    /// Reads a number at the cursor: decimal, or hexadecimal after `0x`, or binary after `0b`.
    pub fn try_read(cursor: &mut SourceCursor) -> (r: TokenResult<Self>)
        requires
            reader_pre(*old(cursor)),
        ensures
            result_is(r, number_at(old(cursor).text(), old(cursor).index() as int).0),
            consumed_to(
                *final(cursor),
                *old(cursor),
                number_at(old(cursor).text(), old(cursor).index() as int).1,
            ),
    {
        if is_digit(cursor.current()) {
            let mut num_type = NumberType::Decimal;
            let c = cursor.current();
            let n = cursor.next();
            let digits = if c == '0' && (n == 'x' || n == 'b') {
                cursor.advance();
                if cursor.current() == 'x' {
                    num_type = NumberType::Hexadecimal;
                    cursor.advance();
                    read_hexadecimal(cursor)?
                } else {
                    num_type = NumberType::Binary;
                    cursor.advance();
                    read_binary(cursor)?
                }
            } else {
                read_decimal(cursor)?
            };
            Ok(Some(LiteralNumber { ty: num_type, digits }))
        } else {
            Ok(None)
        }
    }
}

/// Reads the digits of a decimal number; `_` is skipped and one `.` is kept.
fn read_decimal(cursor: &mut SourceCursor) -> (r: Result<String, TokenError>)
    requires
        reader_pre(*old(cursor)),
    ensures
        r is Ok,
        r->Ok_0@ == decimal_scan(old(cursor).text(), old(cursor).index() as int, false).0,
        consumed_to(
            *final(cursor),
            *old(cursor),
            decimal_scan(old(cursor).text(), old(cursor).index() as int, false).1,
        ),
{
    let ghost s = cursor.text();
    let ghost i = cursor.index() as int;
    let mut number = String::new();
    let mut decimal = false;
    proof {
        lemma_decimal_scan(s, i, false);
    }
    loop
        invariant
            cursor.wf(),
            cursor.text() == s,
            i <= cursor.index() <= s.len(),
            cursor.absolute() == old(cursor).absolute() + cursor.index() - i,
            old(cursor).absolute() + s.len() - i <= usize::MAX,
            number@ + decimal_scan(s, cursor.index() as int, decimal).0 == decimal_scan(
                s,
                i,
                false,
            ).0,
            decimal_scan(s, cursor.index() as int, decimal).1 == decimal_scan(s, i, false).1,
        ensures
            cursor.wf(),
            cursor.text() == s,
            cursor.absolute() == old(cursor).absolute() + cursor.index() - i,
            number@ == decimal_scan(s, i, false).0,
            cursor.index() == decimal_scan(s, i, false).1,
        decreases s.len() - cursor.index(),
    {
        let ghost k = cursor.index() as int;
        let current = cursor.current();
        if is_digit(current) {
            push_char(&mut number, current);
        } else if current == '.' && !decimal {
            decimal = true;
            push_char(&mut number, current);
        } else if current != '_' {
            proof {
                assert(number@ =~= number@ + Seq::<char>::empty());
            }
            break;
        }
        proof {
            assert(k < s.len());
        }
        cursor.advance();
        proof {
            assert(number@ + decimal_scan(s, cursor.index() as int, decimal).0 =~= decimal_scan(
                s,
                i,
                false,
            ).0);
        }
    }
    Ok(number)
}

/// Reads a run of characters that satisfy `p`; an empty run is an error.
fn read_radix_digits(cursor: &mut SourceCursor, hex: bool) -> (r: Result<String, TokenError>)
    requires
        reader_pre(*old(cursor)),
    ensures
        ({
            let (sc, e) = if hex {
                radix_digits(old(cursor).text(), old(cursor).index() as int, |c: char| hex_char(c))
            } else {
                radix_digits(old(cursor).text(), old(cursor).index() as int, |c: char| bin_char(c))
            };
            &&& match sc {
                Scan::Read(v) => r is Ok && r->Ok_0@ == v,
                Scan::Fail(err) => r == Err::<String, TokenError>(err),
                _ => false,
            }
            &&& consumed_to(*final(cursor), *old(cursor), e)
        }),
{
    let ghost s = cursor.text();
    let ghost i = cursor.index() as int;
    let ghost p = if hex {
        |c: char| hex_char(c)
    } else {
        |c: char| bin_char(c)
    };
    proof {
        lemma_run_end(s, i, p);
    }
    let mut number = String::new();
    loop
        invariant
            cursor.wf(),
            cursor.text() == s,
            i <= cursor.index() <= run_end(s, i, p) <= s.len(),
            forall|j: int| i <= j < run_end(s, i, p) ==> p(#[trigger] s[j]),
            run_end(s, i, p) < s.len() ==> !p(s[run_end(s, i, p)]),
            p == (if hex {
                |c: char| hex_char(c)
            } else {
                |c: char| bin_char(c)
            }),
            cursor.absolute() == old(cursor).absolute() + cursor.index() - i,
            old(cursor).absolute() + s.len() - i <= usize::MAX,
            number@ == s.subrange(i, cursor.index() as int),
        ensures
            cursor.wf(),
            cursor.text() == s,
            cursor.index() == run_end(s, i, p),
            cursor.absolute() == old(cursor).absolute() + cursor.index() - i,
            number@ == s.subrange(i, cursor.index() as int),
        decreases s.len() - cursor.index(),
    {
        let c = cursor.current();
        let ok = if hex {
            is_digit(c) || ('a' <= c && c <= 'f') || ('A' <= c && c <= 'F')
        } else {
            c == '0' || c == '1'
        };
        if !ok {
            proof {
                if cursor.index() < run_end(s, i, p) {
                    assert(p(s[cursor.index() as int]));
                }
            }
            break;
        }
        proof {
            assert(p(c));
            assert(!p('\0'));
        }
        push_char(&mut number, c);
        cursor.advance();
        proof {
            assert(number@ =~= s.subrange(i, cursor.index() as int));
        }
    }
    if number.as_str().is_empty() {
        proof {
            assert(number@.len() == cursor.index() - i);
        }
        if cursor.eof() {
            Err(TokenError::UnexpectedEof)
        } else {
            Err(TokenError::InvalidChar(cursor.current()))
        }
    } else {
        Ok(number)
    }
}

impl LiteralString {
    /// Reads a string literal at the cursor: `"..."`, or a raw string opened by `@`
    /// and a run of quotes.
    pub fn try_read(cursor: &mut SourceCursor) -> (r: TokenResult<Self>)
        requires
            reader_pre(*old(cursor)),
            !(string_at(old(cursor).text(), old(cursor).index() as int).0 is Stuck),
        ensures
            result_is(r, string_at(old(cursor).text(), old(cursor).index() as int).0),
            consumed_to(
                *final(cursor),
                *old(cursor),
                string_at(old(cursor).text(), old(cursor).index() as int).1,
            ),
    {
        let ghost s = cursor.text();
        let ghost i = cursor.index() as int;
        if cursor.current() == '"' {
            cursor.advance();
            let content = read_string(cursor, 1)?;
            Ok(Some(Self { ty: StringType::Regular, content }))
        } else if cursor.current() == '@' && cursor.next() == '"' {
            cursor.advance();
            let ghost p = |c: char| c == '"';
            proof {
                lemma_run_end(s, i + 1, p);
            }
            let mut quotes: usize = 0;
            while cursor.current() == '"'
                invariant
                    cursor.wf(),
                    cursor.text() == s,
                    i + 1 <= cursor.index() <= run_end(s, i + 1, p) <= s.len(),
                    forall|j: int| i + 1 <= j < run_end(s, i + 1, p) ==> #[trigger] s[j] == '"',
                    run_end(s, i + 1, p) < s.len() ==> s[run_end(s, i + 1, p)] != '"',
                    cursor.absolute() == old(cursor).absolute() + cursor.index() - i,
                    old(cursor).absolute() + s.len() - i <= usize::MAX,
                    quotes == cursor.index() - (i + 1),
                decreases s.len() - cursor.index(),
            {
                proof {
                    if cursor.index() == run_end(s, i + 1, p) && cursor.index() < s.len() {
                        assert(s[cursor.index() as int] != '"');
                    }
                }
                quotes += 1;
                cursor.advance();
            }
            proof {
                if cursor.index() < run_end(s, i + 1, p) {
                    assert(s[cursor.index() as int] == '"');
                }
            }
            let content = read_string(cursor, quotes)?;
            Ok(Some(Self { ty: StringType::Raw(quotes), content }))
        } else {
            Ok(None)
        }
    }
}

/// Reads the body of a string literal closed by a run of `quotes` quotes.
fn read_string(cursor: &mut SourceCursor, quotes: usize) -> (r: Result<String, TokenError>)
    requires
        reader_pre(*old(cursor)),
        !(string_body(old(cursor).text(), old(cursor).index() as int, quotes as nat, 0).0 is Stuck),
    ensures
        match string_body(old(cursor).text(), old(cursor).index() as int, quotes as nat, 0).0 {
            Scan::Read(v) => r is Ok && r->Ok_0@ == v,
            Scan::Fail(err) => r == Err::<String, TokenError>(err),
            _ => false,
        },
        consumed_to(
            *final(cursor),
            *old(cursor),
            string_body(old(cursor).text(), old(cursor).index() as int, quotes as nat, 0).1,
        ),
{
    let ghost s = cursor.text();
    let ghost i = cursor.index() as int;
    let ghost q = quotes as nat;
    let ghost target = string_body(s, i, q, 0);
    proof {
        lemma_string_body(s, i, q, 0);
    }
    let mut content = String::new();
    loop
        invariant_except_break
            prepend_all(content@, string_body(s, cursor.index() as int, q, 0).0) == target.0,
            string_body(s, cursor.index() as int, q, 0).1 == target.1,
        invariant
            cursor.wf(),
            cursor.text() == s,
            i <= cursor.index() <= s.len(),
            q == quotes,
            s == old(cursor).text(),
            i == old(cursor).index(),
            target == string_body(s, i, q, 0),
            !(target.0 is Stuck),
            cursor.absolute() == old(cursor).absolute() + cursor.index() - i,
            old(cursor).absolute() + s.len() - i <= usize::MAX,
        ensures
            cursor.wf(),
            cursor.text() == s,
            cursor.absolute() == old(cursor).absolute() + cursor.index() - i,
            target.0 == Scan::Read(content@),
            cursor.index() == target.1,
        decreases s.len() - cursor.index(),
    {
        if cursor.eof() {
            proof {
                assert(string_body(s, cursor.index() as int, q, 0) == (
                    Scan::<Seq<char>>::Fail(TokenError::UnexpectedEof),
                    cursor.index() as int,
                ));
                assert(target.0 == Scan::<Seq<char>>::Fail(TokenError::UnexpectedEof));
                assert(target.1 == cursor.index());
            }
            return Err(TokenError::UnexpectedEof);
        }
        let current = cursor.current();
        if current == '"' {
            let ghost k = cursor.index() as int;
            let mut quotes_found: usize = 0;
            while cursor.current() == '"'
                invariant
                    cursor.wf(),
                    cursor.text() == s,
                    k <= cursor.index() <= s.len(),
                    cursor.absolute() == old(cursor).absolute() + cursor.index() - i,
                    old(cursor).absolute() + s.len() - i <= usize::MAX,
                    i <= k,
                    quotes_found == cursor.index() - k,
                    prepend_all(content@, string_body(s, cursor.index() as int, q, quotes_found as nat).0)
                        == target.0,
                    string_body(s, cursor.index() as int, q, quotes_found as nat).1 == target.1,
                decreases s.len() - cursor.index(),
            {
                quotes_found += 1;
                cursor.advance();
            }
            if quotes_found == quotes {
                proof {
                    assert(content@ + Seq::<char>::empty() =~= content@);
                }
                break;
            } else {
                proof {
                    lemma_prepend_all(content@, seq!['"'], string_body(s, cursor.index() as int, q, 0).0);
                    assert(content@ + seq!['"'] =~= content@.push('"'));
                }
                push_char(&mut content, current);
            }
        } else if current == '\\' || current == '{' {
            proof {
                assert(false);
            }
            return Err(TokenError::UnexpectedEof);
        } else {
            proof {
                lemma_prepend_all(content@, seq![current], string_body(s, cursor.index() + 1int, q, 0).0);
                assert(content@ + seq![current] =~= content@.push(current));
            }
            push_char(&mut content, current);
            cursor.advance();
        }
    }
    Ok(content)
}

/// Reads the digits of a binary number.
fn read_binary(cursor: &mut SourceCursor) -> (r: Result<String, TokenError>)
    requires
        reader_pre(*old(cursor)),
    ensures
        ({
            let (sc, e) = radix_digits(
                old(cursor).text(),
                old(cursor).index() as int,
                |c: char| bin_char(c),
            );
            &&& match sc {
                Scan::Read(v) => r is Ok && r->Ok_0@ == v,
                Scan::Fail(err) => r == Err::<String, TokenError>(err),
                _ => false,
            }
            &&& consumed_to(*final(cursor), *old(cursor), e)
        }),
{
    read_radix_digits(cursor, false)
}

/// Reads the digits of a hexadecimal number.
fn read_hexadecimal(cursor: &mut SourceCursor) -> (r: Result<String, TokenError>)
    requires
        reader_pre(*old(cursor)),
    ensures
        ({
            let (sc, e) = radix_digits(
                old(cursor).text(),
                old(cursor).index() as int,
                |c: char| hex_char(c),
            );
            &&& match sc {
                Scan::Read(v) => r is Ok && r->Ok_0@ == v,
                Scan::Fail(err) => r == Err::<String, TokenError>(err),
                _ => false,
            }
            &&& consumed_to(*final(cursor), *old(cursor), e)
        }),
{
    read_radix_digits(cursor, true)
}

} // verus!
