use vstd::prelude::*;

verus! {

/// The character reported for positions past the end of the text.
pub const EOF: char = '\0';

/// The character at index `i` of `s`, or `EOF` when `i` is past the end.
pub open spec fn char_at(s: Seq<char>, i: int) -> char {
    if 0 <= i < s.len() {
        s[i]
    } else {
        EOF
    }
}

/// A read position in a source text.
///
/// `index` counts the characters consumed (it stops at the end of the text),
/// `absolute` counts every call of `advance`, also those made at the end.
pub struct Cursor {
    content: Vec<char>,
    index: usize,
    absolute: usize,
}

/// The name under which the tokenizer uses the cursor.
pub type SourceCursor = Cursor;

impl Cursor {
    /// The whole text the cursor reads.
    pub closed spec fn text(&self) -> Seq<char> {
        self.content@
    }

    /// How many characters of the text have been consumed.
    pub closed spec fn index(&self) -> nat {
        self.index as nat
    }

    /// How many times the cursor has been advanced.
    pub closed spec fn absolute(&self) -> nat {
        self.absolute as nat
    }

    /// The advance count is a machine integer.
    pub proof fn lemma_absolute_bound(&self)
        ensures
            self.absolute() <= usize::MAX,
    {
    }

    pub open spec fn wf(&self) -> bool {
        self.index() <= self.text().len()
    }

    pub open spec fn at_end(&self) -> bool {
        self.index() >= self.text().len()
    }

    pub open spec fn spec_current(&self) -> char {
        char_at(self.text(), self.index() as int)
    }

    /// `absolute - 2 * index`: it grows only by advancing at the end of the text.
    pub open spec fn balance(&self) -> int {
        self.absolute() - 2 * self.index()
    }

    /// There is room left in `absolute` for twice the rest of the text and four more steps.
    pub open spec fn has_room(&self) -> bool {
        self.balance() + 2 * self.text().len() + 4 <= usize::MAX
    }

    pub fn new(data: &str) -> (cursor: Self)
        ensures
            cursor.wf(),
            cursor.text() == data@,
            cursor.index() == 0,
            cursor.absolute() == 0,
    {
        let mut content: Vec<char> = Vec::new();
        let mut chars = data.chars();
        loop
            invariant
                content@ + vstd::std_specs::iter::IteratorSpec::remaining(&chars) == data@,
                vstd::std_specs::iter::IteratorSpec::decrease(&chars) is Some,
            ensures
                content@ == data@,
            decreases vstd::std_specs::iter::IteratorSpec::decrease(&chars)->0,
        {
            match chars.next() {
                Some(c) => {
                    content.push(c);
                    proof {
                        assert(content@ + vstd::std_specs::iter::IteratorSpec::remaining(&chars) =~= data@);
                    }
                },
                None => {
                    assert(content@ =~= data@);
                    break ;
                },
            }
        }
        Self { content, index: 0, absolute: 0 }
    }

    pub fn eof(&self) -> (b: bool)
        requires
            self.wf(),
        ensures
            b == self.at_end(),
    {
        self.index >= self.content.len()
    }

    pub fn pos(&self) -> (p: usize)
        ensures
            p == self.absolute(),
    {
        self.absolute
    }

    pub fn current(&self) -> (c: char)
        requires
            self.wf(),
        ensures
            c == self.spec_current(),
    {
        self.nth(0)
    }

    pub fn next(&self) -> (c: char)
        requires
            self.wf(),
        ensures
            c == char_at(self.text(), self.index() + 1int),
    {
        self.nth(1)
    }

    pub fn nth(&self, n: usize) -> (c: char)
        requires
            self.wf(),
        ensures
            c == char_at(self.text(), self.index() + n as int),
    {
        if n < self.content.len() - self.index {
            self.content[self.index + n]
        } else {
            EOF
        }
    }

    /// Skips spaces and tabs.
    pub fn skip_whitespaces(&mut self)
        requires
            old(self).wf(),
            old(self).absolute() + old(self).text().len() - old(self).index() <= usize::MAX,
        ensures
            final(self).wf(),
            final(self).text() == old(self).text(),
            final(self).index() == blank_run_end(old(self).text(), old(self).index() as int),
            final(self).absolute() == old(self).absolute() + final(self).index() - old(
                self,
            ).index(),
    {
        proof {
            lemma_blank_run_end(self.text(), self.index() as int);
        }
        while self.current() == ' ' || self.current() == '\t'
            invariant
                self.wf(),
                self.text() == old(self).text(),
                old(self).index() <= self.index(),
                self.absolute() == old(self).absolute() + self.index() - old(self).index(),
                old(self).absolute() + old(self).text().len() - old(self).index() <= usize::MAX,
                blank_run_end(self.text(), self.index() as int) == blank_run_end(
                    self.text(),
                    old(self).index() as int,
                ),
            decreases self.text().len() - self.index(),
        {
            self.advance();
        }
    }

    /// Moves past the current character and returns it; at the end it only counts the step.
    pub fn advance(&mut self) -> (c: char)
        requires
            old(self).wf(),
            old(self).absolute() < usize::MAX,
        ensures
            final(self).wf(),
            final(self).text() == old(self).text(),
            c == old(self).spec_current(),
            final(self).absolute() == old(self).absolute() + 1,
            final(self).index() == if old(self).at_end() {
                old(self).index()
            } else {
                old(self).index() + 1
            },
    {
        self.absolute += 1;
        if self.index < self.content.len() {
            let c = self.content[self.index];
            self.index += 1;
            c
        } else {
            EOF
        }
    }
}

/// The cursor holds the same text as `before` and has consumed it up to `end`,
/// one advance per consumed character.
pub open spec fn consumed_to(after: Cursor, before: Cursor, end: int) -> bool {
    &&& after.wf()
    &&& after.text() == before.text()
    &&& after.index() == end
    &&& after.absolute() == before.absolute() + end - before.index()
}

/// The cursor holds the same text as `before`, has consumed it up to `end` and has
/// been advanced `abs` times in all.
pub open spec fn moved_to(after: Cursor, before: Cursor, end: int, abs: int) -> bool {
    &&& after.wf()
    &&& after.text() == before.text()
    &&& after.index() == end
    &&& after.absolute() == abs
}

/// The first index at or after `i` whose character fails `p` (or the end of `s`).
pub open spec fn run_end(s: Seq<char>, i: int, p: spec_fn(char) -> bool) -> int
    decreases s.len() - i,
{
    if 0 <= i < s.len() && p(s[i]) {
        run_end(s, i + 1, p)
    } else {
        i
    }
}

pub proof fn lemma_run_end(s: Seq<char>, i: int, p: spec_fn(char) -> bool)
    requires
        0 <= i <= s.len(),
    ensures
        i <= run_end(s, i, p) <= s.len(),
        forall|j: int| i <= j < run_end(s, i, p) ==> p(#[trigger] s[j]),
        run_end(s, i, p) < s.len() ==> !p(s[run_end(s, i, p)]),
    decreases s.len() - i,
{
    if i < s.len() && p(s[i]) {
        lemma_run_end(s, i + 1, p);
    }
}

pub open spec fn is_blank(c: char) -> bool {
    c == ' ' || c == '\t'
}

/// The first index at or after `i` that does not hold a space or a tab.
pub open spec fn blank_run_end(s: Seq<char>, i: int) -> int
    decreases s.len() - i,
{
    if 0 <= i < s.len() && is_blank(s[i]) {
        blank_run_end(s, i + 1)
    } else {
        i
    }
}

pub proof fn lemma_blank_run_end(s: Seq<char>, i: int)
    requires
        0 <= i <= s.len(),
    ensures
        i <= blank_run_end(s, i) <= s.len(),
        forall|j: int| i <= j < blank_run_end(s, i) ==> is_blank(#[trigger] s[j]),
        !is_blank(char_at(s, blank_run_end(s, i))),
    decreases s.len() - i,
{
    if i < s.len() && is_blank(s[i]) {
        lemma_blank_run_end(s, i + 1);
    }
}

} // verus!
