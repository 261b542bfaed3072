use vstd::prelude::*;

use crate::Span;
use crate::tokens::{TokenTypeV, TokenV};
use crate::tokens::group::Delim;
use crate::tokens::punct::TokenPunct;
use crate::tokens::stream::end_token_after;

use super::{Parse, ParseError, ParseErrorV, ParseResult, Spanned, parsed, result_view, tok_at, unexpected};
use super::grouped::{GroupParser, lemma_group_stream};
use super::ident::Ident;
use super::keywords::{Use, keyword_outcome};
use super::punct::{Comma, Dot, Star, parse_punct};
use super::stream::ParseStream;

verus! {

/// An import: `use`, then segments separated by dots, then, in braces, the paths
/// imported under them (these without `use`), separated by commas.
#[derive(Debug, PartialEq, Eq)]
pub struct UsePath {
    pub regular: Vec<UsePathSegment>,
    pub extract: Option<Vec<UsePath>>,
}

/// A segment of an import: a name, or `*` for everything.
#[derive(Debug, PartialEq, Eq)]
pub enum UsePathSegment {
    Item(Ident),
    All(Span),
}

/// The mathematical value of an import segment.
pub enum UsePathSegmentV {
    Item((Seq<char>, Span)),
    All(Span),
}

/// The mathematical value of an import.
pub struct UsePathV {
    pub regular: Seq<UsePathSegmentV>,
    pub extract: Option<Seq<UsePathV>>,
}

impl View for UsePathSegment {
    type V = UsePathSegmentV;

    open spec fn view(&self) -> UsePathSegmentV {
        match self {
            UsePathSegment::Item(i) => UsePathSegmentV::Item(i@),
            UsePathSegment::All(s) => UsePathSegmentV::All(*s),
        }
    }
}

pub open spec fn use_segments_v(s: Seq<UsePathSegment>) -> Seq<UsePathSegmentV> {
    s.map_values(|x: UsePathSegment| x@)
}

pub open spec fn use_path_v(p: UsePath) -> UsePathV
    decreases p,
{
    UsePathV {
        regular: use_segments_v(p.regular@),
        extract: match p.extract {
            Some(v) => Some(use_paths_v(v@)),
            None => None,
        },
    }
}

pub open spec fn use_paths_v(s: Seq<UsePath>) -> Seq<UsePathV>
    decreases s,
{
    if s.len() == 0 {
        Seq::empty()
    } else {
        use_paths_v(s.drop_last()).push(use_path_v(s.last()))
    }
}

impl View for UsePath {
    type V = UsePathV;

    open spec fn view(&self) -> UsePathV {
        use_path_v(*self)
    }
}

/// What parsing an import segment does at the front of `ts`: a name, else `*`.
pub open spec fn use_segment_spec(ts: Seq<TokenV>, eof: TokenV) -> (Result<UsePathSegmentV, ParseErrorV>, nat) {
    let (ri, ni) = Ident::parse_spec(ts, eof);
    if ri is Ok {
        (Ok(UsePathSegmentV::Item(ri->Ok_0)), ni)
    } else {
        let t = tok_at(ts, eof, 0);
        if t.content == TokenTypeV::Punct(TokenPunct::Star) {
            (Ok(UsePathSegmentV::All(t.span)), 1)
        } else {
            (unexpected("<module pat/wildcard>"@, t), 0)
        }
    }
}

/// What reading further segments, each after a dot, does from `ts`, the segments in
/// `acc` having been read before. A segment that fails after its dot fails the import.
pub open spec fn more_segments_spec(ts: Seq<TokenV>, eof: TokenV, acc: Seq<UsePathSegmentV>) -> (Result<Seq<UsePathSegmentV>, ParseErrorV>, nat)
    decreases ts.len(),
{
    if tok_at(ts, eof, 0).content == TokenTypeV::Punct(TokenPunct::Dot) && 1 <= ts.len() {
        let (r, n) = use_segment_spec(ts.skip(1), eof);
        if r is Err {
            (Err(r->Err_0), 1 + n)
        } else if n <= ts.len() - 1 {
            let (r2, n2) = more_segments_spec(ts.skip(1).skip(n as int), eof, acc.push(r->Ok_0));
            (r2, 1 + n + n2)
        } else {
            (Ok(acc.push(r->Ok_0)), 1 + n)
        }
    } else {
        (Ok(acc), 0)
    }
}

/// What parsing an import without its `use` does from `ts`: the segments, then the
/// braced list of imports, if a braced group follows.
pub open spec fn use_body_spec(ts: Seq<TokenV>, eof: TokenV) -> (Result<UsePathV, ParseErrorV>, nat)
    decreases ts, 2nat,
{
    let (r1, n1) = use_segment_spec(ts, eof);
    if r1 is Err {
        (Err(r1->Err_0), n1)
    } else {
        let (rm, nm) = more_segments_spec(ts.skip(n1 as int), eof, seq![r1->Ok_0]);
        if rm is Err {
            (Err(rm->Err_0), n1 + nm)
        } else {
            let m = n1 + nm;
            if m < ts.len() && (ts[m as int].content matches TokenTypeV::Group(d, inner) && d
                == Delim::Brace) {
                let inner = ts[m as int].content->Group_1;
                proof {
                    assert(decreases_to!(ts => ts[m as int]));
                    assert(decreases_to!(ts[m as int] => ts[m as int].content));
                }
                let (l, _) = use_list_spec(inner, end_token_after(inner), Seq::empty());
                (Ok(UsePathV { regular: rm->Ok_0, extract: Some(l) }), m + 1)
            } else {
                (Ok(UsePathV { regular: rm->Ok_0, extract: None }), m)
            }
        }
    }
}

/// What parsing imports (without `use`) separated by commas does from `ts`, the
/// imports in `acc` having been read before; the list ends at the first import or
/// comma that does not parse.
pub open spec fn use_list_spec(ts: Seq<TokenV>, eof: TokenV, acc: Seq<UsePathV>) -> (Seq<UsePathV>, nat)
    decreases ts, 3nat,
{
    let (r1, n1) = use_body_spec(ts, eof);
    if r1 is Err {
        (acc, n1)
    } else {
        let ts1 = ts.skip(n1 as int);
        if tok_at(ts1, eof, 0).content == TokenTypeV::Punct(TokenPunct::Comma) && n1 <= ts.len()
            && 1 <= ts1.len() {
            proof {
                assert(ts1.skip(1) =~= ts.subrange(n1 + 1int, ts.len() as int));
            }
            let (l, n3) = use_list_spec(ts1.skip(1), eof, acc.push(r1->Ok_0));
            (l, n1 + 1 + n3)
        } else {
            (acc.push(r1->Ok_0), n1)
        }
    }
}

/// What parsing an import does from `ts`: the keyword `use`, then the rest.
pub open spec fn use_path_spec(ts: Seq<TokenV>, eof: TokenV) -> (Result<UsePathV, ParseErrorV>, nat) {
    let (k, _) = keyword_outcome("use"@, tok_at(ts, eof, 0), 0);
    if k is Err {
        (Err(k->Err_0), 0)
    } else {
        let (r, n) = use_body_spec(ts.skip(1), eof);
        (r, 1 + n)
    }
}

/// Parses an import segment.
fn parse_use_segment(stream: &mut ParseStream) -> (r: ParseResult<UsePathSegment>)
    requires
        old(stream).wf(),
    ensures
        final(stream).wf(),
        parsed(*old(stream), *final(stream), result_view(r), use_segment_spec(old(stream)@.0, old(stream)@.1)),
{
    let ghost ts0 = stream@.0;
    if let Ok(name) = stream.parse::<Ident>() {
        return Ok(UsePathSegment::Item(name));
    }
    proof {
        assert(stream@.0 =~= ts0);
    }
    if let Ok(all) = stream.parse::<Star>() {
        return Ok(UsePathSegment::All(all.span()));
    }
    proof {
        assert(stream@.0 =~= ts0);
    }
    Err(ParseError::UnexpectedToken { expected: "<module pat/wildcard>", got: stream.current().clone() })
}

/// Parses an import without its `use`.
fn parse_use_body(stream: &mut ParseStream) -> (r: ParseResult<UsePath>)
    requires
        old(stream).wf(),
    ensures
        final(stream).wf(),
        parsed(*old(stream), *final(stream), result_view(r), use_body_spec(old(stream)@.0, old(stream)@.1)),
    decreases old(stream)@.0, 2nat,
{
    let ghost ts0 = stream@.0;
    let ghost eof = stream@.1;
    let first = match parse_use_segment(stream) {
        Ok(s) => s,
        Err(e) => return Err(e),
    };
    let ghost n1 = use_segment_spec(ts0, eof).1;
    let ghost first_v = first@;
    let mut regular: Vec<UsePathSegment> = Vec::new();
    regular.push(first);
    let ghost target = more_segments_spec(ts0.skip(n1 as int), eof, seq![first_v]);
    let ghost mut taken: nat = 0;
    proof {
        assert(use_segments_v(regular@) =~= seq![first@]);
        assert(ts0.skip(n1 as int).skip(0) =~= ts0.skip(n1 as int));
    }
    loop
        invariant_except_break
            n1 + taken <= ts0.len(),
            stream@.0 == ts0.skip((n1 + taken) as int),
            target == ({
                let (r, n) = more_segments_spec(stream@.0, eof, use_segments_v(regular@));
                (r, n + taken)
            }),
        invariant
            stream.wf(),
            stream@.1 == eof,
            ts0 == old(stream)@.0,
            eof == old(stream)@.1,
            n1 == use_segment_spec(ts0, eof).1,
            use_segment_spec(ts0, eof).0 == Ok::<UsePathSegmentV, ParseErrorV>(first_v),
            target == more_segments_spec(ts0.skip(n1 as int), eof, seq![first_v]),
        ensures
            n1 + taken <= ts0.len(),
            stream@.0 == ts0.skip((n1 + taken) as int),
            target == (Ok::<Seq<UsePathSegmentV>, ParseErrorV>(use_segments_v(regular@)), taken),
        decreases stream@.0.len(),
    {
        let ghost cur = stream@.0;
        if parse_punct::<Dot>(stream).is_err() {
            break;
        }
        let ghost cur1 = stream@.0;
        let segment = match parse_use_segment(stream) {
            Ok(s) => s,
            Err(e) => {
                proof {
                    assert(cur1 == cur.skip(1));
                    assert(more_segments_spec(cur, eof, use_segments_v(regular@)).0 == Err::<Seq<UsePathSegmentV>, ParseErrorV>(e@));
                    assert(target.0 == Err::<Seq<UsePathSegmentV>, ParseErrorV>(e@));
                    assert(cur1.skip(use_segment_spec(cur1, eof).1 as int) =~= ts0.skip(
                        (n1 + taken + 1 + use_segment_spec(cur1, eof).1) as int,
                    ));
                }
                return Err(e);
            },
        };
        let ghost n = use_segment_spec(cur1, eof).1;
        let ghost before = regular@;
        regular.push(segment);
        proof {
            assert(use_segments_v(regular@) =~= use_segments_v(before).push(segment@));
            assert(cur1.skip(n as int) =~= ts0.skip((n1 + taken + 1 + n) as int));
            taken = taken + 1 + n;
        }
    }
    let ghost m = n1 + taken;
    proof {
        assert(ts0.skip(m as int) == stream@.0);
    }
    let extract = match stream.parse_with(GroupParser { delim: Delim::Brace, name: "Braced" }) {
        Ok(mut inner) => {
            proof {
                lemma_group_stream(Delim::Brace, "Braced"@, ts0.skip(m as int), eof);
                inner.lemma_wf_from_view();
                assert(ts0.skip(m as int)[0] == ts0[m as int]);
                assert(decreases_to!(ts0 => ts0[m as int]));
                assert(decreases_to!(ts0[m as int] => ts0[m as int].content));
            }
            Some(parse_use_list(&mut inner))
        },
        Err(_) => None,
    };
    proof {
        if extract is None {
            assert(ts0.skip(m as int).skip(0) =~= ts0.skip(m as int));
            if m < ts0.len() {
                assert(ts0.skip(m as int)[0] == ts0[m as int]);
            }
        } else {
            assert(ts0.skip(m as int).skip(1) =~= ts0.skip(m + 1int));
        }
    }
    Ok(UsePath { regular, extract })
}

/// Parses imports (without `use`) separated by commas.
fn parse_use_list(stream: &mut ParseStream) -> (paths: Vec<UsePath>)
    requires
        old(stream).wf(),
    ensures
        final(stream).wf(),
        ({
            let (l, n) = use_list_spec(old(stream)@.0, old(stream)@.1, Seq::empty());
            &&& use_paths_v(paths@) == l
            &&& n <= old(stream)@.0.len()
            &&& final(stream)@.0 == old(stream)@.0.skip(n as int)
            &&& final(stream)@.1 == old(stream)@.1
        }),
    decreases old(stream)@.0, 3nat,
{
    let ghost ts0 = stream@.0;
    let ghost eof = stream@.1;
    let ghost target = use_list_spec(ts0, eof, Seq::empty());
    let mut paths: Vec<UsePath> = Vec::new();
    let ghost mut taken: nat = 0;
    proof {
        assert(ts0.skip(0) =~= ts0);
    }
    loop
        invariant_except_break
            taken <= ts0.len(),
            stream@.0 == ts0.skip(taken as int),
            target.0 == use_list_spec(stream@.0, eof, use_paths_v(paths@)).0,
            target.1 == use_list_spec(stream@.0, eof, use_paths_v(paths@)).1 + taken,
        invariant
            stream.wf(),
            stream@.1 == eof,
            ts0 == old(stream)@.0,
            target == use_list_spec(ts0, eof, Seq::empty()),
        ensures
            stream.wf(),
            stream@.1 == eof,
            target.0 == use_paths_v(paths@),
            target.1 <= ts0.len(),
            stream@.0 == ts0.skip(target.1 as int),
        decreases stream@.0.len(),
    {
        let ghost cur = stream@.0;
        proof {
            if taken > 0 {
                assert(cur =~= ts0.subrange(taken as int, ts0.len() as int));
                assert(decreases_to!(ts0 => cur));
            } else {
                assert(cur =~= ts0);
            }
        }
        let path = match parse_use_body(stream) {
            Ok(p) => p,
            Err(_) => {
                proof {
                    assert(cur.skip(use_body_spec(cur, eof).1 as int) =~= ts0.skip(target.1 as int));
                }
                break;
            },
        };
        let ghost n1 = use_body_spec(cur, eof).1;
        let ghost ts1 = stream@.0;
        let ghost before = paths@;
        paths.push(path);
        proof {
            assert(paths@.drop_last() =~= before);
        }
        if parse_punct::<Comma>(stream).is_err() {
            proof {
                assert(ts1.skip(0) =~= ts0.skip(target.1 as int));
            }
            break;
        }
        proof {
            assert(ts1.skip(1) =~= ts0.skip((taken + n1 + 1) as int));
            taken = taken + n1 + 1;
        }
    }
    paths
}

impl Spanned for UsePathSegment {
    open spec fn has_span(&self) -> bool {
        true
    }

    open spec fn span_of(&self) -> Span {
        match self {
            UsePathSegment::Item(i) => i.span_of(),
            UsePathSegment::All(s) => *s,
        }
    }

    fn span(&self) -> (s: Span) {
        match self {
            UsePathSegment::Item(item) => item.span(),
            UsePathSegment::All(span) => *span,
        }
    }
}

/// An import has a span when it has a segment and, if it has braces, they hold
/// imports that all have spans.
pub closed spec fn use_has_span(p: UsePath) -> bool
    decreases p,
{
    &&& p.regular@.len() > 0
    &&& match p.extract {
        Some(v) => v@.len() > 0 && all_have_span(v@),
        None => true,
    }
}

pub closed spec fn all_have_span(s: Seq<UsePath>) -> bool
    decreases s,
{
    if s.len() == 0 {
        true
    } else {
        all_have_span(s.drop_last()) && use_has_span(s.last())
    }
}

/// The span of an import: from its first segment to its last segment, or to the
/// last import in its braces.
pub closed spec fn use_span_of(p: UsePath) -> Span
    decreases p,
{
    let start = p.regular@[0].span_of().start;
    match p.extract {
        Some(v) => if v@.len() > 0 {
            Span { start, end: use_span_of(v@.last()).end }
        } else {
            Span { start, end: p.regular@.last().span_of().end }
        },
        None => Span { start, end: p.regular@.last().span_of().end },
    }
}

proof fn lemma_all_have_span(s: Seq<UsePath>, i: int)
    requires
        all_have_span(s),
        0 <= i < s.len(),
    ensures
        use_has_span(s[i]),
    decreases s.len(),
{
    if i < s.len() - 1 {
        lemma_all_have_span(s.drop_last(), i);
        assert(s.drop_last()[i] == s[i]);
    }
}

fn use_span(p: &UsePath) -> (span: Span)
    requires
        use_has_span(*p),
    ensures
        span == use_span_of(*p),
    decreases *p,
{
    let mut span = p.regular[0].span();
    let mut i: usize = 1;
    while i < p.regular.len()
        invariant
            1 <= i <= p.regular@.len(),
            span.start == p.regular@[0].span_of().start,
            span.end == p.regular@[i - 1].span_of().end,
        decreases p.regular.len() - i,
    {
        span = span.join(p.regular[i].span());
        i += 1;
    }
    if let Some(extract) = &p.extract {
        let mut j: usize = 0;
        while j < extract.len()
            invariant
                0 <= j <= extract@.len(),
                extract@.len() > 0,
                all_have_span(extract@),
                span.start == p.regular@[0].span_of().start,
                j == 0 ==> span.end == p.regular@.last().span_of().end,
                j > 0 ==> span.end == use_span_of(extract@[j - 1]).end,
                p.extract == Some(*extract),
            decreases extract.len() - j,
        {
            proof {
                lemma_all_have_span(extract@, j as int);
                assert(decreases_to!(*p => p.extract));
                assert(decreases_to!(p.extract => p.extract->Some_0));
                assert(decreases_to!(p.extract->Some_0 => p.extract->Some_0@));
                assert(decreases_to!(p.extract->Some_0@ => extract@[j as int]));
            }
            span = span.join(use_span(&extract[j]));
            j += 1;
        }
    }
    span
}

impl Spanned for UsePath {
    open spec fn has_span(&self) -> bool {
        use_has_span(*self)
    }

    open spec fn span_of(&self) -> Span {
        use_span_of(*self)
    }

    fn span(&self) -> (s: Span) {
        use_span(self)
    }
}

impl Parse for UsePathSegment {
    open spec fn parse_spec(ts: Seq<TokenV>, eof: TokenV) -> (Result<UsePathSegmentV, ParseErrorV>, nat) {
        use_segment_spec(ts, eof)
    }

    open spec fn could_parse_spec(ts: Seq<TokenV>, eof: TokenV) -> bool {
        Ident::could_parse_spec(ts, eof) || tok_at(ts, eof, 0).content == TokenTypeV::Punct(
            TokenPunct::Star,
        )
    }

    fn parse(stream: &mut ParseStream) -> (r: ParseResult<Self>) {
        parse_use_segment(stream)
    }

    fn could_parse(stream: &mut ParseStream) -> (b: bool) {
        Ident::could_parse(stream) || Star::could_parse(stream)
    }
}

impl Parse for UsePath {
    open spec fn parse_spec(ts: Seq<TokenV>, eof: TokenV) -> (Result<UsePathV, ParseErrorV>, nat) {
        use_path_spec(ts, eof)
    }

    open spec fn could_parse_spec(ts: Seq<TokenV>, eof: TokenV) -> bool {
        super::keywords::keyword_span("use"@, tok_at(ts, eof, 0)) is Some
    }

    fn parse(stream: &mut ParseStream) -> (r: ParseResult<Self>) {
        let ghost ts0 = stream@.0;
        match stream.parse::<Use>() {
            Ok(_) => {},
            Err(e) => return Err(e),
        }
        let r = parse_use_body(stream);
        proof {
            assert(ts0.skip(1).skip(use_body_spec(ts0.skip(1), old(stream)@.1).1 as int) =~= ts0.skip(
                (1 + use_body_spec(ts0.skip(1), old(stream)@.1).1) as int,
            ));
        }
        r
    }

    fn could_parse(stream: &mut ParseStream) -> (b: bool) {
        Use::could_parse(stream)
    }
}

} // verus!
