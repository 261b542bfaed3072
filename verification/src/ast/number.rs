use vstd::prelude::*;
use vstd::string::StrSliceExecFns;

use crate::Span;
use crate::tokens::{TokenType, TokenTypeV, TokenV, copy_token, lemma_tokens_view_index};
use crate::tokens::literal::{NumberType, TokenLiteral, TokenLiteralV};

use super::{ParseError, ParseErrorV, ParseResult, Spanned, parsed, result_view, tok_at, unexpected};
use super::stream::ParseStream;
use crate::runtime::chunk::{digit_char_of, radix_text};

verus! {

/// The value of a number literal. A literal with a fraction is kept as its text: its
/// value is a floating-point number, which is computed outside this library.
#[derive(Debug, Clone, PartialEq, Eq)]
pub enum Number {
    Int(i64),
    UInt(u64),
    Float(String),
}

/// The mathematical value of a number literal.
pub enum NumberV {
    Int(int),
    UInt(int),
    Float(Seq<char>),
}

impl View for Number {
    type V = NumberV;

    open spec fn view(&self) -> NumberV {
        match self {
            Number::Int(v) => NumberV::Int(*v as int),
            Number::UInt(v) => NumberV::UInt(*v as int),
            Number::Float(t) => NumberV::Float(t@),
        }
    }
}

/// A number literal: its value and its span.
#[derive(Debug, PartialEq, Eq, Clone)]
pub struct LitNumber {
    number: Number,
    span: Span,
}

impl View for LitNumber {
    type V = (NumberV, Span);

    closed spec fn view(&self) -> (NumberV, Span) {
        (self.number@, self.span)
    }
}

impl Spanned for LitNumber {
    open spec fn has_span(&self) -> bool {
        true
    }

    open spec fn span_of(&self) -> Span {
        self@.1
    }

    fn span(&self) -> (s: Span) {
        self.span
    }
}

/// Why a text is not an integer.
#[derive(Debug, Clone, Copy, PartialEq, Eq, Structural)]
pub enum IntError {
    /// The text is empty.
    Empty,
    /// A character is not a digit of the base (or a sign stands alone).
    InvalidDigit,
    /// The number is above the largest the type holds.
    PosOverflow,
    /// The number is below the smallest the type holds.
    NegOverflow,
}

/// The message that the error `e` reads as.
pub open spec fn int_error_message(e: IntError) -> Seq<char> {
    match e {
        IntError::Empty => "cannot parse integer from empty string"@,
        IntError::InvalidDigit => "invalid digit found in string"@,
        IntError::PosOverflow => "number too large to fit in target type"@,
        IntError::NegOverflow => "number too small to fit in target type"@,
    }
}

/// The value of `c` as a digit of base `radix` (letters count from ten), or -1 where
/// it is none.
pub open spec fn digit_value(c: char, radix: int) -> int {
    let v = if '0' <= c && c <= '9' {
        c as int - '0' as int
    } else if 'a' <= c && c <= 'z' {
        c as int - 'a' as int + 10
    } else if 'A' <= c && c <= 'Z' {
        c as int - 'A' as int + 10
    } else {
        radix
    };
    if v < radix {
        v
    } else {
        -1
    }
}

/// Reading the digits of `d` from `i` on, the digits before having made `acc`: each
/// character in turn must be a digit, and the number so far may not pass `bound`
/// (passing it is an overflow upward, or downward where `neg`).
pub open spec fn digits_scan(d: Seq<char>, i: int, acc: int, radix: int, bound: int, neg: bool) -> Result<int, IntError>
    decreases d.len() - i,
{
    if i >= d.len() || i < 0 {
        Ok(acc)
    } else if digit_value(d[i], radix) < 0 {
        Err(IntError::InvalidDigit)
    } else {
        let a = acc * radix + digit_value(d[i], radix);
        if a > bound {
            Err(
                if neg {
                    IntError::NegOverflow
                } else {
                    IntError::PosOverflow
                },
            )
        } else {
            digits_scan(d, i + 1, a, radix, bound, neg)
        }
    }
}

/// The largest value of a 64-bit integer, signed or not.
pub open spec fn int_max(signed: bool) -> int {
    if signed {
        0x7fff_ffff_ffff_ffff
    } else {
        0xffff_ffff_ffff_ffff
    }
}

/// The integer that `d` is in base `radix`: an optional `+` (or, where `signed`, `-`)
/// and digits, fitting in 64 bits.
pub open spec fn int_parse(d: Seq<char>, radix: int, signed: bool) -> Result<int, IntError> {
    if d.len() == 0 {
        Err(IntError::Empty)
    } else if (d[0] == '+' || d[0] == '-') && d.len() == 1 {
        Err(IntError::InvalidDigit)
    } else if d[0] == '+' {
        digits_scan(d, 1, 0, radix, int_max(signed), false)
    } else if d[0] == '-' && signed {
        match digits_scan(d, 1, 0, radix, int_max(signed) + 1, true) {
            Ok(m) => Ok(-m),
            Err(e) => Err(e),
        }
    } else {
        digits_scan(d, 0, 0, radix, int_max(signed), false)
    }
}

/// Whether a decimal literal has a fraction or an exponent.
pub open spec fn float_text(d: Seq<char>) -> bool {
    d.contains('.') || d.contains('e') || d.contains('E')
}

/// Whether a decimal literal starts with a sign.
pub open spec fn signed_text(d: Seq<char>) -> bool {
    d.len() > 0 && (d[0] == '-' || d[0] == '+')
}

/// A decimal fraction in the form the tokenizer reads: an optional sign, then digits
/// with exactly one `.` among them and at least one digit.
pub open spec fn plain_fraction(d: Seq<char>) -> bool {
    let s = if signed_text(d) {
        1int
    } else {
        0int
    };
    exists|k: int|
        s <= k < d.len() && d[k] == '.' && d.len() >= s + 2 && forall|i: int|
            s <= i < d.len() && i != k ==> '0' <= #[trigger] d[i] && d[i] <= '9'
}

/// The value of a number literal of kind `ty` with the text `d`, or the message of
/// why it has none.
pub open spec fn number_value(ty: NumberType, d: Seq<char>) -> Result<NumberV, Seq<char>> {
    match ty {
        NumberType::Decimal => if float_text(d) {
            Ok(NumberV::Float(d))
        } else if signed_text(d) {
            match int_parse(d, 10, true) {
                Ok(v) => Ok(NumberV::Int(v)),
                Err(e) => Err(int_error_message(e)),
            }
        } else {
            match int_parse(d, 10, false) {
                Ok(v) => Ok(NumberV::UInt(v)),
                Err(e) => Err(int_error_message(e)),
            }
        },
        NumberType::Hexadecimal => match int_parse(d, 16, false) {
            Ok(v) => Ok(NumberV::UInt(v)),
            Err(e) => Err(int_error_message(e)),
        },
        NumberType::Binary => match int_parse(d, 2, false) {
            Ok(v) => Ok(NumberV::UInt(v)),
            Err(e) => Err(int_error_message(e)),
        },
    }
}

/// Whether the number literal token `t` is one that is not read: a hexadecimal or
/// binary literal that is not a 64-bit unsigned number, and a fraction in another form
/// than the tokenizer's, whose validity is a question of floating-point syntax.
pub open spec fn number_unread(t: TokenV) -> bool {
    match t.content {
        TokenTypeV::Literal(TokenLiteralV::Number(ty, d)) => match ty {
            NumberType::Decimal => float_text(d) && !plain_fraction(d),
            NumberType::Hexadecimal => int_parse(d, 16, false) is Err,
            NumberType::Binary => int_parse(d, 2, false) is Err,
        },
        _ => false,
    }
}

/// What parsing a number literal does at the token `t`: the value and one token taken,
/// or an error with none taken.
pub open spec fn lit_number_outcome(t: TokenV) -> (Result<(NumberV, Span), ParseErrorV>, nat) {
    match t.content {
        TokenTypeV::Literal(TokenLiteralV::Number(ty, d)) => match number_value(ty, d) {
            Ok(n) => (Ok((n, t.span)), 1),
            Err(m) => (Err(ParseErrorV::BadLiteral(m)), 0),
        },
        _ => (unexpected("number"@, t), 0),
    }
}

/// The digit value of `c` in base `radix`, if it is a digit of that base.
fn to_digit(c: char, radix: u32) -> (r: Option<u32>)
    requires
        2 <= radix <= 36,
    ensures
        digit_value(c, radix as int) >= 0 ==> r == Some(digit_value(c, radix as int) as u32),
        digit_value(c, radix as int) < 0 ==> r is None,
{
    let v: u32 = if '0' <= c && c <= '9' {
        (c as u32) - ('0' as u32)
    } else if 'a' <= c && c <= 'z' {
        (c as u32) - ('a' as u32) + 10
    } else if 'A' <= c && c <= 'Z' {
        (c as u32) - ('A' as u32) + 10
    } else {
        radix
    };
    if v < radix {
        Some(v)
    } else {
        None
    }
}

/// Reads the digits of `d` from `start` on, as `digits_scan` says.
fn scan_digits(d: &str, start: usize, radix: u32, bound: u128, neg: bool) -> (r: Result<u128, IntError>)
    requires
        2 <= radix <= 36,
        bound <= 0x1_0000_0000_0000_0000,
        start <= d@.len(),
    ensures
        match r {
            Ok(v) => digits_scan(d@, start as int, 0, radix as int, bound as int, neg) == Ok::<int, IntError>(v as int),
            Err(e) => digits_scan(d@, start as int, 0, radix as int, bound as int, neg) == Err::<int, IntError>(e),
        },
        r matches Ok(v) ==> v <= bound,
{
    let n = d.unicode_len();
    let mut i = start;
    let mut acc: u128 = 0;
    while i < n
        invariant
            n == d@.len(),
            start <= i <= n,
            2 <= radix <= 36,
            bound <= 0x1_0000_0000_0000_0000,
            acc <= bound,
            digits_scan(d@, start as int, 0, radix as int, bound as int, neg) == digits_scan(
                d@,
                i as int,
                acc as int,
                radix as int,
                bound as int,
                neg,
            ),
        decreases n - i,
    {
        let c = d.get_char(i);
        let v = match to_digit(c, radix) {
            Some(v) => v,
            None => return Err(IntError::InvalidDigit),
        };
        assert(acc * (radix as u128) <= 0x1_0000_0000_0000_0000 * 36) by (nonlinear_arith)
            requires
                acc <= 0x1_0000_0000_0000_0000,
                radix <= 36,
        ;
        let a = acc * (radix as u128) + (v as u128);
        if a > bound {
            return Err(
                if neg {
                    IntError::NegOverflow
                } else {
                    IntError::PosOverflow
                },
            );
        }
        acc = a;
        i += 1;
    }
    Ok(acc)
}

/// Reads `d` as an integer in base `radix`, as `int_parse` says.
fn parse_int(d: &str, radix: u32, signed: bool) -> (r: Result<i128, IntError>)
    requires
        2 <= radix <= 36,
    ensures
        match r {
            Ok(v) => int_parse(d@, radix as int, signed) == Ok::<int, IntError>(v as int),
            Err(e) => int_parse(d@, radix as int, signed) == Err::<int, IntError>(e),
        },
        r matches Ok(v) ==> -int_max(signed) - 1 <= v <= int_max(signed),
        !signed ==> (r matches Ok(v) ==> 0 <= v),
{
    let n = d.unicode_len();
    if n == 0 {
        return Err(IntError::Empty);
    }
    let first = d.get_char(0);
    if (first == '+' || first == '-') && n == 1 {
        return Err(IntError::InvalidDigit);
    }
    let max: u128 = if signed {
        0x7fff_ffff_ffff_ffff
    } else {
        0xffff_ffff_ffff_ffff
    };
    if first == '+' {
        match scan_digits(d, 1, radix, max, false) {
            Ok(v) => Ok(v as i128),
            Err(e) => Err(e),
        }
    } else if first == '-' && signed {
        match scan_digits(d, 1, radix, max + 1, true) {
            Ok(v) => Ok(0i128 - (v as i128)),
            Err(e) => Err(e),
        }
    } else {
        match scan_digits(d, 0, radix, max, false) {
            Ok(v) => Ok(v as i128),
            Err(e) => Err(e),
        }
    }
}

/// The message of the error `e`.
fn int_error_text(e: IntError) -> (s: String)
    ensures
        s@ == int_error_message(e),
{
    match e {
        IntError::Empty => "cannot parse integer from empty string".to_owned(),
        IntError::InvalidDigit => "invalid digit found in string".to_owned(),
        IntError::PosOverflow => "number too large to fit in target type".to_owned(),
        IntError::NegOverflow => "number too small to fit in target type".to_owned(),
    }
}

/// Whether `d` holds a `.`, an `e` or an `E`.
fn has_fraction(d: &str) -> (b: bool)
    ensures
        b == float_text(d@),
{
    let n = d.unicode_len();
    let mut i: usize = 0;
    while i < n
        invariant
            n == d@.len(),
            i <= n,
            forall|k: int| 0 <= k < i ==> d@[k] != '.' && d@[k] != 'e' && d@[k] != 'E',
        decreases n - i,
    {
        let c = d.get_char(i);
        if c == '.' || c == 'e' || c == 'E' {
            assert(d@[i as int] == c);
            return true;
        }
        i += 1;
    }
    false
}

/// The value of a number literal of kind `ty` with the text `digits`.
fn number_of(ty: NumberType, digits: &String) -> (r: Result<Number, String>)
    requires
        ty is Decimal,
    ensures
        match r {
            Ok(n) => number_value(ty, digits@) == Ok::<NumberV, Seq<char>>(n@),
            Err(m) => number_value(ty, digits@) == Err::<NumberV, Seq<char>>(m@),
        },
{
    let d = digits.as_str();
    if has_fraction(d) {
        return Ok(Number::Float(digits.clone()));
    }
    let n = d.unicode_len();
    let signed = n > 0 && (d.get_char(0) == '-' || d.get_char(0) == '+');
    match parse_int(d, 10, signed) {
        Ok(v) => if signed {
            Ok(Number::Int(v as i64))
        } else {
            Ok(Number::UInt(v as u64))
        },
        Err(e) => Err(int_error_text(e)),
    }
}

/// The value of a hexadecimal or binary literal whose digits make a 64-bit number.
fn radix_number_of(ty: NumberType, digits: &String) -> (r: u64)
    requires
        !(ty is Decimal),
        number_value(ty, digits@) is Ok,
    ensures
        number_value(ty, digits@) == Ok::<NumberV, Seq<char>>(NumberV::UInt(r as int)),
{
    let radix: u32 = match ty {
        NumberType::Hexadecimal => 16,
        _ => 2,
    };
    match parse_int(digits.as_str(), radix, false) {
        Ok(v) => v as u64,
        Err(_) => 0,
    }
}

impl LitNumber {
    /// The value.
    pub fn number(&self) -> (n: &Number)
        ensures
            n@ == self@.0,
    {
        &self.number
    }

    /// Parses a number literal at the front of the stream: a decimal literal with a
    /// sign is a signed integer, one with a fraction keeps its text, any other is an
    /// unsigned integer; hexadecimal and binary literals are unsigned.
    pub fn parse(stream: &mut ParseStream) -> (r: ParseResult<Self>)
        requires
            old(stream).wf(),
            !number_unread(tok_at(old(stream)@.0, old(stream)@.1, 0)),
        ensures
            final(stream).wf(),
            parsed(
                *old(stream),
                *final(stream),
                result_view(r),
                lit_number_outcome(tok_at(old(stream)@.0, old(stream)@.1, 0)),
            ),
    {
        let token = copy_token(stream.current());
        match &token.content {
            TokenType::Literal(TokenLiteral::Number(literal)) => {
                let number = match literal.ty {
                    NumberType::Decimal => match number_of(literal.ty, &literal.digits) {
                        Ok(n) => n,
                        Err(m) => {
                            assert(stream@.0.skip(0) =~= stream@.0);
                            return Err(ParseError::BadLiteral(m));
                        },
                    },
                    _ => Number::UInt(radix_number_of(literal.ty, &literal.digits)),
                };
                stream.drop_first();
                Ok(LitNumber { number, span: token.span })
            },
            _ => {
                assert(stream@.0.skip(0) =~= stream@.0);
                Err(ParseError::UnexpectedToken { expected: "number", got: token })
            },
        }
    }
}

/// A letter stands for the same digit in either case: `F` is fifteen as `f` is.
pub proof fn law_digit_case_insensitive(c: char, radix: int)
    requires
        'A' <= c && c <= 'Z',
    ensures
        digit_value(c, radix) == digit_value(((c as int) + 32) as char, radix),
{
}

/// Digits count up with the characters: `0` is zero, each digit and each letter
/// from `a` on is one more than the character before it (`a` is ten), in any base
/// large enough to hold them; a character whose value is not below the base is no
/// digit of it.
pub proof fn law_digits_count_up(c: char, radix: int)
    requires
        radix == 36,
    ensures
        digit_value('0', radix) == 0,
        digit_value('a', radix) == 10,
        ('0' <= c && c < '9') || ('a' <= c && c < 'z') ==> digit_value(((c as int) + 1) as char, radix)
            == digit_value(c, radix) + 1,
        !(('0' <= c && c <= '9') || ('a' <= c && c <= 'z') || ('A' <= c && c <= 'Z')) ==> digit_value(c, radix) < 0,
{
}

/// A character is a digit of a base exactly where its value in the widest base is
/// below that base.
pub proof fn law_digit_in_base(c: char, radix: int)
    requires
        2 <= radix <= 36,
    ensures
        digit_value(c, radix) == if 0 <= digit_value(c, 36) < radix {
            digit_value(c, 36)
        } else {
            -1
        },
{
}

proof fn lemma_digit_char_value(d: int, radix: int)
    requires
        0 <= d < radix <= 16,
    ensures
        digit_value(digit_char_of(d), radix) == d,
        digit_char_of(d) != '+' && digit_char_of(d) != '-',
{
}

proof fn lemma_scan_push(s: Seq<char>, c: char, i: int, acc: int, v: int, radix: int, bound: int)
    requires
        0 <= i <= s.len(),
        digits_scan(s, i, acc, radix, bound, false) == Ok::<int, IntError>(v),
        digit_value(c, radix) >= 0,
        v * radix + digit_value(c, radix) <= bound,
        radix >= 2,
    ensures
        digits_scan(s.push(c), i, acc, radix, bound, false) == Ok::<int, IntError>(
            v * radix + digit_value(c, radix),
        ),
    decreases s.len() - i,
{
    if i < s.len() {
        assert(s.push(c)[i] == s[i]);
        let a = acc * radix + digit_value(s[i], radix);
        lemma_scan_push(s, c, i + 1, a, v, radix, bound);
    } else {
        assert(s.push(c)[i] == c);
        assert(v == acc);
        let a = acc * radix + digit_value(c, radix);
        assert(digits_scan(s.push(c), i + 1, a, radix, bound, false) == Ok::<int, IntError>(a));
    }
}

proof fn lemma_radix_text_scan(n: nat, radix: nat, bound: int)
    requires
        radix == 2 || radix == 10 || radix == 16,
        n <= bound,
    ensures
        digits_scan(radix_text(n, radix), 0, 0, radix as int, bound, false) == Ok::<int, IntError>(
            n as int,
        ),
        radix_text(n, radix).len() > 0,
        radix_text(n, radix)[0] != '+' && radix_text(n, radix)[0] != '-',
    decreases n,
{
    if n < radix {
        lemma_digit_char_value(n as int, radix as int);
        let t = radix_text(n, radix);
        assert(t == seq![digit_char_of(n as int)]);
        assert(digits_scan(t, 1, n as int, radix as int, bound, false) == Ok::<int, IntError>(n as int));
    } else {
        let q = n / radix;
        let r = n % radix;
        assert(q < n && q * radix + r == n && 0 <= r < radix) by (nonlinear_arith)
            requires
                radix >= 2,
                n >= radix,
                q == n / radix,
                r == n % radix,
        ;
        lemma_radix_text_scan(q, radix, bound);
        lemma_digit_char_value(r as int, radix as int);
        lemma_scan_push(radix_text(q, radix), digit_char_of(r as int), 0, 0, q as int, radix as int, bound);
        assert(radix_text(n, radix)[0] == radix_text(q, radix)[0]);
    }
}

/// Reading back a number written in base 2, 10 or 16 gives the number: the digits
/// that the listing writes are read as the same value.
pub proof fn law_read_back_written(n: nat, radix: nat)
    requires
        radix == 2 || radix == 10 || radix == 16,
        n <= 0xffff_ffff_ffff_ffff,
    ensures
        int_parse(radix_text(n, radix), radix as int, false) == Ok::<int, IntError>(n as int),
{
    lemma_radix_text_scan(n, radix, 0xffff_ffff_ffff_ffff);
}

} // verus!
