use vstd::prelude::*;

use std::marker::PhantomData;

use crate::Span;
use crate::tokens::TokenV;

use super::{Parse, ParseErrorV, ParseResult, Spanned};
use super::punct::{Comma, Punct};
use super::stream::ParseStream;

verus! {

/// The views of the items `v`.
pub open spec fn views<T: View>(v: Seq<T>) -> Seq<T::V> {
    v.map_values(|t: T| t@)
}

/// What parsing items `T` separated by `P` does from the tokens `ts`, the items in
/// `acc` having been read before: the items, and the number of tokens taken.
///
/// An item is read; when it fails, the list ends (with what the failed item took).
/// A separator is read; when it fails, the list ends after the item.
pub open spec fn separated_from<T: Parse, P: Parse>(ts: Seq<TokenV>, eof: TokenV, acc: Seq<T::V>) -> (Seq<T::V>, nat)
    decreases ts.len(),
{
    let (r1, n1) = T::parse_spec(ts, eof);
    if r1 is Err {
        (acc, n1)
    } else {
        let ts1 = ts.skip(n1 as int);
        let (r2, n2) = P::parse_spec(ts1, eof);
        if r2 is Err {
            (acc.push(r1->Ok_0), n1 + n2)
        } else if 1 <= n1 + n2 && n1 <= ts.len() && n2 <= ts1.len() {
            let (items, n3) = separated_from::<T, P>(ts1.skip(n2 as int), eof, acc.push(r1->Ok_0));
            (items, n1 + n2 + n3)
        } else {
            (acc.push(r1->Ok_0), n1 + n2)
        }
    }
}

/// Items `T` separated by the punctuation `P`.
#[derive(Debug, PartialEq, Eq)]
pub struct Separated<T: Parse, P: Punct = Comma> {
    inner: Vec<T>,
    _puncts: PhantomData<P>,
}

impl<T: Parse, P: Punct> View for Separated<T, P> {
    type V = Seq<T::V>;

    closed spec fn view(&self) -> Seq<T::V> {
        views(self.inner@)
    }
}

impl<T: Parse, P: Punct> Separated<T, P> {
    /// The items, in order.
    pub closed spec fn items(&self) -> Seq<T> {
        self.inner@
    }

    /// The items, in order.
    pub fn iter(&self) -> (it: std::slice::Iter<'_, T>)
        ensures
            vstd::std_specs::slice::into_iter_elts(it) == self.items(),
    {
        let it = self.inner.as_slice().iter();
        proof {
            broadcast use vstd::std_specs::slice::axiom_spec_slice_iter;
            assert(vstd::std_specs::slice::into_iter_elts(it) =~= self.inner@);
        }
        it
    }

    /// The items, in order.
    pub fn into_items(self) -> (v: Vec<T>)
        ensures
            v@ == self.items(),
    {
        self.inner
    }
}

impl<T: Parse, P: Punct> Spanned for Separated<T, P> {
    closed spec fn has_span(&self) -> bool {
        &&& self.inner@.len() > 0
        &&& self.inner@[0].has_span()
        &&& self.inner@.last().has_span()
    }

    closed spec fn span_of(&self) -> Span {
        Span { start: self.inner@[0].span_of().start, end: self.inner@.last().span_of().end }
    }

    fn span(&self) -> (s: Span) {
        self.inner[0].span().join(self.inner[self.inner.len() - 1].span())
    }
}

impl<T: Parse, P: Punct> Parse for Separated<T, P> {
    open spec fn parse_spec(ts: Seq<TokenV>, eof: TokenV) -> (Result<Seq<T::V>, ParseErrorV>, nat) {
        let (items, n) = separated_from::<T, P>(ts, eof, Seq::empty());
        (Ok(items), n)
    }

    open spec fn could_parse_spec(ts: Seq<TokenV>, eof: TokenV) -> bool {
        true
    }

    fn parse(stream: &mut ParseStream) -> (r: ParseResult<Self>) {
        let ghost ts0 = stream@.0;
        let ghost eof = stream@.1;
        let ghost target = separated_from::<T, P>(ts0, eof, Seq::empty());
        let mut inner: Vec<T> = Vec::new();
        let ghost mut taken: nat = 0;
        proof {
            assert(ts0.skip(0) =~= ts0);
            assert(views(inner@) =~= Seq::<T::V>::empty());
        }
        loop
            invariant_except_break
                taken <= ts0.len(),
                stream@.0 == ts0.skip(taken as int),
                target.0 == separated_from::<T, P>(stream@.0, eof, views(inner@)).0,
                target.1 == separated_from::<T, P>(stream@.0, eof, views(inner@)).1 + taken,
            invariant
                stream.wf(),
                stream@.1 == eof,
                target == separated_from::<T, P>(ts0, eof, Seq::empty()),
            ensures
                stream.wf(),
                stream@.1 == eof,
                target.0 == views(inner@),
                target.1 <= ts0.len(),
                stream@.0 == ts0.skip(target.1 as int),
            decreases stream@.0.len(),
        {
            let ghost cur = stream@.0;
            let item = match stream.parse::<T>() {
                Ok(item) => item,
                Err(_) => {
                    proof {
                        assert(cur.skip(T::parse_spec(cur, eof).1 as int) =~= ts0.skip(target.1 as int));
                    }
                    break;
                },
            };
            let ghost n1 = T::parse_spec(cur, eof).1;
            let ghost ts1 = stream@.0;
            let ghost before = inner@;
            inner.push(item);
            proof {
                assert(views(inner@) =~= views(before).push(item@));
                P::lemma_parse_spec(ts1, eof);
            }
            if stream.parse::<P>().is_err() {
                proof {
                    assert(ts1.skip(P::parse_spec(ts1, eof).1 as int) =~= ts0.skip(target.1 as int));
                }
                break;
            }
            proof {
                let n2 = P::parse_spec(ts1, eof).1;
                assert(ts1.skip(n2 as int) =~= ts0.skip((taken + n1 + n2) as int));
                taken = taken + n1 + n2;
            }
        }
        Ok(Separated { inner, _puncts: PhantomData })
    }

    fn could_parse(stream: &mut ParseStream) -> (b: bool) {
        true
    }
}

} // verus!
