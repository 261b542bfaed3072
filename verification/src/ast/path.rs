use vstd::prelude::*;

use crate::Span;
use crate::tokens::{TokenTypeV, TokenV};
use crate::tokens::punct::TokenPunct;

use super::{Parse, ParseError, ParseErrorV, ParseResult, Spanned, parsed, result_view, tok_at, unexpected};
use super::ident::Ident;
use super::punct::{Comma, Dot, Gt, Lt, parse_punct, could_parse_punct};
use super::stream::ParseStream;

verus! {

/// A path: segments separated by dots, such as `name<type1, type2>.field`.
#[derive(Debug, PartialEq, Eq)]
pub struct ExprPath {
    pub segments: Vec<PathSegment>,
}

/// One segment of a path: a name, with generic arguments if it has any.
#[derive(Debug, PartialEq, Eq)]
pub enum PathSegment {
    Ident(Ident),
    Generics(Ident, Generics),
}

/// The generic arguments of a path segment: paths between `<` and `>`.
#[derive(Debug, PartialEq, Eq)]
pub struct Generics(Vec<ExprPath>);

/// The mathematical value of a path segment.
pub enum PathSegmentV {
    Ident((Seq<char>, Span)),
    Generics((Seq<char>, Span), Seq<Seq<PathSegmentV>>),
}

pub open spec fn path_v(p: ExprPath) -> Seq<PathSegmentV>
    decreases p,
{
    segments_v(p.segments@)
}

pub open spec fn segments_v(s: Seq<PathSegment>) -> Seq<PathSegmentV>
    decreases s,
{
    if s.len() == 0 {
        Seq::empty()
    } else {
        segments_v(s.drop_last()).push(segment_v(s.last()))
    }
}

pub closed spec fn segment_v(s: PathSegment) -> PathSegmentV
    decreases s,
{
    match s {
        PathSegment::Ident(i) => PathSegmentV::Ident(i@),
        PathSegment::Generics(i, g) => PathSegmentV::Generics(i@, paths_v(g.0@)),
    }
}

/// A segment's value keeps its name, and says whether it has generic arguments.
pub broadcast proof fn lemma_segment_v(s: PathSegment)
    ensures
        match s {
            PathSegment::Ident(i) => #[trigger] segment_v(s) == PathSegmentV::Ident(i@),
            PathSegment::Generics(i, g) => segment_v(s) matches PathSegmentV::Generics(n, args)
                && n == i@ && args == g@,
        },
{
}

pub open spec fn paths_v(s: Seq<ExprPath>) -> Seq<Seq<PathSegmentV>>
    decreases s,
{
    if s.len() == 0 {
        Seq::empty()
    } else {
        paths_v(s.drop_last()).push(path_v(s.last()))
    }
}

impl View for ExprPath {
    type V = Seq<PathSegmentV>;

    open spec fn view(&self) -> Seq<PathSegmentV> {
        path_v(*self)
    }
}

impl View for PathSegment {
    type V = PathSegmentV;

    open spec fn view(&self) -> PathSegmentV {
        segment_v(*self)
    }
}

impl View for Generics {
    type V = Seq<Seq<PathSegmentV>>;

    closed spec fn view(&self) -> Seq<Seq<PathSegmentV>> {
        paths_v(self.0@)
    }
}

impl Generics {
    /// The argument paths.
    pub closed spec fn paths(&self) -> Seq<ExprPath> {
        self.0@
    }

    /// The number of argument paths.
    pub fn len(&self) -> (n: usize)
        ensures
            n == self.paths().len(),
    {
        self.0.len()
    }
}

impl Default for Generics {
    fn default() -> (g: Self)
        ensures
            g.paths().len() == 0,
    {
        Generics(Vec::new())
    }
}

/// What parsing a list of paths separated by commas does from the tokens `ts`, the
/// paths in `acc` having been read before.
pub open spec fn path_list_spec(ts: Seq<TokenV>, eof: TokenV, acc: Seq<Seq<PathSegmentV>>) -> (Seq<Seq<PathSegmentV>>, nat)
    decreases ts.len(), 4nat,
{
    let (r1, n1) = path_spec(ts, eof);
    if r1 is Err {
        (acc, n1)
    } else {
        let ts1 = ts.skip(n1 as int);
        if tok_at(ts1, eof, 0).content == TokenTypeV::Punct(TokenPunct::Comma) && n1 <= ts.len()
            && 1 <= ts1.len() {
            let (l, n3) = path_list_spec(ts1.skip(1), eof, acc.push(r1->Ok_0));
            (l, n1 + 1 + n3)
        } else {
            (acc.push(r1->Ok_0), n1)
        }
    }
}

/// What parsing a path does from the tokens `ts`: segments separated by dots; no
/// segment at all is an error at the token after what the try took.
pub open spec fn path_spec(ts: Seq<TokenV>, eof: TokenV) -> (Result<Seq<PathSegmentV>, ParseErrorV>, nat)
    decreases ts.len(), 3nat,
{
    let (segs, n) = segment_list_spec(ts, eof, Seq::empty());
    if segs.len() == 0 {
        (unexpected("path"@, tok_at(ts.skip(n as int), eof, 0)), n)
    } else {
        (Ok(segs), n)
    }
}

/// What parsing segments separated by dots does from the tokens `ts`, the segments in
/// `acc` having been read before.
pub open spec fn segment_list_spec(ts: Seq<TokenV>, eof: TokenV, acc: Seq<PathSegmentV>) -> (Seq<PathSegmentV>, nat)
    decreases ts.len(), 2nat,
{
    let (r1, n1) = segment_spec(ts, eof);
    if r1 is Err {
        (acc, n1)
    } else {
        let ts1 = ts.skip(n1 as int);
        if tok_at(ts1, eof, 0).content == TokenTypeV::Punct(TokenPunct::Dot) && n1 <= ts.len()
            && 1 <= ts1.len() {
            let (l, n3) = segment_list_spec(ts1.skip(1), eof, acc.push(r1->Ok_0));
            (l, n1 + 1 + n3)
        } else {
            (acc.push(r1->Ok_0), n1)
        }
    }
}

/// What parsing a path segment does from the tokens `ts`: a name, then generic
/// arguments if they parse (what a failed try of them took stays taken).
pub open spec fn segment_spec(ts: Seq<TokenV>, eof: TokenV) -> (Result<PathSegmentV, ParseErrorV>, nat)
    decreases ts.len(), 1nat,
{
    let (ri, ni) = Ident::parse_spec(ts, eof);
    if ri is Err {
        (Err(ri->Err_0), ni)
    } else if 1 <= ts.len() {
        let (rg, ng) = generics_spec(ts.skip(1), eof);
        if rg is Ok && rg->Ok_0.len() > 0 {
            (Ok(PathSegmentV::Generics(ri->Ok_0, rg->Ok_0)), 1 + ng)
        } else {
            (Ok(PathSegmentV::Ident(ri->Ok_0)), 1 + ng)
        }
    } else {
        (Ok(PathSegmentV::Ident(ri->Ok_0)), ni)
    }
}

/// What parsing generic arguments does from the tokens `ts`: `<`, paths separated by
/// commas, `>`. When the `>` is missing, only the `<` stays taken.
pub open spec fn generics_spec(ts: Seq<TokenV>, eof: TokenV) -> (Result<Seq<Seq<PathSegmentV>>, ParseErrorV>, nat)
    decreases ts.len(), 0nat,
{
    if tok_at(ts, eof, 0).content == TokenTypeV::Punct(TokenPunct::Lt) && 1 <= ts.len() {
        let ts1 = ts.skip(1);
        let (l, n2) = path_list_spec(ts1, eof, Seq::empty());
        let ts2 = ts1.skip(n2 as int);
        if tok_at(ts2, eof, 0).content == TokenTypeV::Punct(TokenPunct::Gt) {
            (Ok(l), 1 + n2 + 1)
        } else {
            (unexpected("Gt"@, tok_at(ts2, eof, 0)), 1)
        }
    } else {
        (unexpected("Lt"@, tok_at(ts, eof, 0)), 0)
    }
}

/// A path that parses has a segment; generic arguments that parse take at least their
/// two angle brackets.
pub proof fn law_parsed_paths_are_nonempty(ts: Seq<TokenV>, eof: TokenV)
    ensures
        path_spec(ts, eof).0 matches Ok(segs) ==> segs.len() > 0,
        generics_spec(ts, eof).0 is Ok ==> generics_spec(ts, eof).1 >= 2,
{
}

/// Parses paths separated by commas; the list ends at the first path or comma that
/// does not parse.
fn parse_path_list(stream: &mut ParseStream) -> (paths: Vec<ExprPath>)
    requires
        old(stream).wf(),
    ensures
        final(stream).wf(),
        ({
            let (l, n) = path_list_spec(old(stream)@.0, old(stream)@.1, Seq::empty());
            &&& paths_v(paths@) == l
            &&& n <= old(stream)@.0.len()
            &&& final(stream)@.0 == old(stream)@.0.skip(n as int)
            &&& final(stream)@.1 == old(stream)@.1
        }),
    decreases old(stream)@.0.len(), 4nat,
{
    let ghost ts0 = stream@.0;
    let ghost eof = stream@.1;
    let ghost target = path_list_spec(ts0, eof, Seq::empty());
    let mut paths: Vec<ExprPath> = Vec::new();
    let ghost mut taken: nat = 0;
    proof {
        assert(ts0.skip(0) =~= ts0);
    }
    loop
        invariant_except_break
            taken <= ts0.len(),
            stream@.0 == ts0.skip(taken as int),
            target.0 == path_list_spec(stream@.0, eof, paths_v(paths@)).0,
            target.1 == path_list_spec(stream@.0, eof, paths_v(paths@)).1 + taken,
        invariant
            stream.wf(),
            stream@.1 == eof,
            ts0 == old(stream)@.0,
            target == path_list_spec(ts0, eof, Seq::empty()),
        ensures
            stream.wf(),
            stream@.1 == eof,
            target.0 == paths_v(paths@),
            target.1 <= ts0.len(),
            stream@.0 == ts0.skip(target.1 as int),
        decreases stream@.0.len(),
    {
        let ghost cur = stream@.0;
        let path = match parse_path(stream) {
            Ok(p) => p,
            Err(_) => {
                proof {
                    assert(cur.skip(path_spec(cur, eof).1 as int) =~= ts0.skip(target.1 as int));
                }
                break;
            },
        };
        let ghost n1 = path_spec(cur, eof).1;
        let ghost ts1 = stream@.0;
        let ghost before = paths@;
        paths.push(path);
        proof {
            assert(paths@.drop_last() =~= before);
        }
        if parse_punct::<Comma>(stream).is_err() {
            proof {
                assert(ts1.skip(0) =~= ts0.skip(target.1 as int));
            }
            break;
        }
        proof {
            assert(ts1.skip(1) =~= ts0.skip((taken + n1 + 1) as int));
            taken = taken + n1 + 1;
        }
    }
    paths
}

/// Parses a path.
fn parse_path(stream: &mut ParseStream) -> (r: ParseResult<ExprPath>)
    requires
        old(stream).wf(),
    ensures
        final(stream).wf(),
        parsed(*old(stream), *final(stream), result_view(r), path_spec(old(stream)@.0, old(stream)@.1)),
    decreases old(stream)@.0.len(), 3nat,
{
    let ghost ts0 = stream@.0;
    let ghost eof = stream@.1;
    let ghost target = segment_list_spec(ts0, eof, Seq::empty());
    let mut segments: Vec<PathSegment> = Vec::new();
    let ghost mut taken: nat = 0;
    proof {
        assert(ts0.skip(0) =~= ts0);
    }
    loop
        invariant_except_break
            taken <= ts0.len(),
            stream@.0 == ts0.skip(taken as int),
            target.0 == segment_list_spec(stream@.0, eof, segments_v(segments@)).0,
            target.1 == segment_list_spec(stream@.0, eof, segments_v(segments@)).1 + taken,
        invariant
            stream.wf(),
            stream@.1 == eof,
            ts0 == old(stream)@.0,
            target == segment_list_spec(ts0, eof, Seq::empty()),
        ensures
            stream.wf(),
            stream@.1 == eof,
            target.0 == segments_v(segments@),
            target.1 <= ts0.len(),
            stream@.0 == ts0.skip(target.1 as int),
        decreases stream@.0.len(),
    {
        let ghost cur = stream@.0;
        let segment = match parse_segment(stream) {
            Ok(s) => s,
            Err(_) => {
                proof {
                    assert(cur.skip(segment_spec(cur, eof).1 as int) =~= ts0.skip(target.1 as int));
                }
                break;
            },
        };
        let ghost n1 = segment_spec(cur, eof).1;
        let ghost ts1 = stream@.0;
        let ghost before = segments@;
        segments.push(segment);
        proof {
            assert(segments@.drop_last() =~= before);
        }
        if parse_punct::<Dot>(stream).is_err() {
            proof {
                assert(ts1.skip(0) =~= ts0.skip(target.1 as int));
            }
            break;
        }
        proof {
            assert(ts1.skip(1) =~= ts0.skip((taken + n1 + 1) as int));
            taken = taken + n1 + 1;
        }
    }
    if segments.len() == 0 {
        return Err(ParseError::UnexpectedToken { expected: "path", got: stream.current().clone() });
    }
    Ok(ExprPath { segments })
}

/// Parses a path segment.
fn parse_segment(stream: &mut ParseStream) -> (r: ParseResult<PathSegment>)
    requires
        old(stream).wf(),
    ensures
        final(stream).wf(),
        parsed(*old(stream), *final(stream), result_view(r), segment_spec(old(stream)@.0, old(stream)@.1)),
    decreases old(stream)@.0.len(), 1nat,
{
    let ghost ts0 = stream@.0;
    let ident = match Ident::parse(stream) {
        Ok(i) => i,
        Err(e) => return Err(e),
    };
    let ghost ts1 = stream@.0;
    let generics = match parse_generics(stream) {
        Ok(g) => g,
        Err(_) => Generics::default(),
    };
    proof {
        assert(ts1.skip(generics_spec(ts1, old(stream)@.1).1 as int) =~= ts0.skip(
            (1 + generics_spec(ts1, old(stream)@.1).1) as int,
        ));
    }
    if generics.len() != 0 {
        Ok(PathSegment::Generics(ident, generics))
    } else {
        Ok(PathSegment::Ident(ident))
    }
}

/// Parses generic arguments.
fn parse_generics(stream: &mut ParseStream) -> (r: ParseResult<Generics>)
    requires
        old(stream).wf(),
    ensures
        final(stream).wf(),
        parsed(*old(stream), *final(stream), result_view(r), generics_spec(old(stream)@.0, old(stream)@.1)),
    decreases old(stream)@.0.len(), 0nat,
{
    let ghost ts0 = stream@.0;
    match parse_punct::<Lt>(stream) {
        Ok(_) => {},
        Err(e) => return Err(e),
    }
    let mut split = stream.clone();
    let ghost ts1 = split@.0;
    let generics = parse_path_list(&mut split);
    let ghost ts2 = split@.0;
    match parse_punct::<Gt>(&mut split) {
        Ok(_) => {},
        Err(e) => return Err(e),
    }
    proof {
        assert(ts2.skip(1) =~= ts0.skip((1 + path_list_spec(ts1, old(stream)@.1, Seq::empty()).1 + 1) as int));
    }
    *stream = split;
    Ok(Generics(generics))
}

/// The span of a path: from its first segment to its last.
fn path_span(p: &ExprPath) -> (s: Span)
    requires
        path_has_span(*p),
    ensures
        s == path_span_of(*p),
    decreases *p,
{
    let first = segment_span(&p.segments[0]);
    let last = segment_span(&p.segments[p.segments.len() - 1]);
    first.join(last)
}

/// The span of a segment: its name, up to the end of its last generic argument.
fn segment_span(s: &PathSegment) -> (r: Span)
    requires
        segment_has_span(*s),
    ensures
        r == segment_span_of(*s),
    decreases *s,
{
    match s {
        PathSegment::Ident(ident) => ident.span(),
        PathSegment::Generics(ident, generics) => {
            let last = path_span(&generics.0[generics.0.len() - 1]);
            ident.span().join(last)
        },
    }
}

/// A path has a span when it has segments and its first and last segments have one.
pub closed spec fn path_has_span(p: ExprPath) -> bool
    decreases p,
{
    &&& p.segments@.len() > 0
    &&& segment_has_span(p.segments@[0])
    &&& segment_has_span(p.segments@.last())
}

/// A segment has a span unless it has an empty list of generic arguments, or its last
/// argument has none.
pub closed spec fn segment_has_span(s: PathSegment) -> bool
    decreases s,
{
    match s {
        PathSegment::Ident(_) => true,
        PathSegment::Generics(_, g) => g.0@.len() > 0 && path_has_span(g.0@.last()),
    }
}

pub closed spec fn path_span_of(p: ExprPath) -> Span
    decreases p,
{
    if p.segments@.len() > 0 {
        Span {
            start: segment_span_of(p.segments@[0]).start,
            end: segment_span_of(p.segments@.last()).end,
        }
    } else {
        Span { start: 0, end: 0 }
    }
}

pub closed spec fn segment_span_of(s: PathSegment) -> Span
    decreases s,
{
    match s {
        PathSegment::Ident(i) => i.span_of(),
        PathSegment::Generics(i, g) => if g.0@.len() > 0 {
            Span { start: i.span_of().start, end: path_span_of(g.0@.last()).end }
        } else {
            i.span_of()
        },
    }
}

impl Spanned for ExprPath {
    open spec fn has_span(&self) -> bool {
        path_has_span(*self)
    }

    open spec fn span_of(&self) -> Span {
        path_span_of(*self)
    }

    fn span(&self) -> (s: Span) {
        path_span(self)
    }
}

impl Spanned for PathSegment {
    open spec fn has_span(&self) -> bool {
        segment_has_span(*self)
    }

    open spec fn span_of(&self) -> Span {
        segment_span_of(*self)
    }

    fn span(&self) -> (s: Span) {
        segment_span(self)
    }
}

impl Spanned for Generics {
    closed spec fn has_span(&self) -> bool {
        self.0@.len() > 0 ==> path_has_span(self.0@[0]) && path_has_span(self.0@.last())
    }

    closed spec fn span_of(&self) -> Span {
        if self.0@.len() > 0 {
            Span { start: path_span_of(self.0@[0]).start, end: path_span_of(self.0@.last()).end }
        } else {
            Span { start: 0, end: 0 }
        }
    }

    fn span(&self) -> (s: Span) {
        if self.0.len() != 0 {
            path_span(&self.0[0]).join(path_span(&self.0[self.0.len() - 1]))
        } else {
            Span::new(0, 0)
        }
    }
}

impl Parse for ExprPath {
    open spec fn parse_spec(ts: Seq<TokenV>, eof: TokenV) -> (Result<Seq<PathSegmentV>, ParseErrorV>, nat) {
        path_spec(ts, eof)
    }

    open spec fn could_parse_spec(ts: Seq<TokenV>, eof: TokenV) -> bool {
        Ident::could_parse_spec(ts, eof)
    }

    fn parse(stream: &mut ParseStream) -> (r: ParseResult<Self>) {
        parse_path(stream)
    }

    fn could_parse(stream: &mut ParseStream) -> (b: bool) {
        Ident::could_parse(stream)
    }
}

impl Parse for PathSegment {
    open spec fn parse_spec(ts: Seq<TokenV>, eof: TokenV) -> (Result<PathSegmentV, ParseErrorV>, nat) {
        segment_spec(ts, eof)
    }

    open spec fn could_parse_spec(ts: Seq<TokenV>, eof: TokenV) -> bool {
        Ident::could_parse_spec(ts, eof)
    }

    fn parse(stream: &mut ParseStream) -> (r: ParseResult<Self>) {
        parse_segment(stream)
    }

    fn could_parse(stream: &mut ParseStream) -> (b: bool) {
        Ident::could_parse(stream)
    }
}

impl Parse for Generics {
    open spec fn parse_spec(ts: Seq<TokenV>, eof: TokenV) -> (Result<Seq<Seq<PathSegmentV>>, ParseErrorV>, nat) {
        generics_spec(ts, eof)
    }

    open spec fn could_parse_spec(ts: Seq<TokenV>, eof: TokenV) -> bool {
        tok_at(ts, eof, 0).content == TokenTypeV::Punct(TokenPunct::Lt)
    }

    fn parse(stream: &mut ParseStream) -> (r: ParseResult<Self>) {
        parse_generics(stream)
    }

    fn could_parse(stream: &mut ParseStream) -> (b: bool) {
        could_parse_punct::<Lt>(stream)
    }
}

} // verus!
