use vstd::prelude::*;

verus! {

/// A line and column in a source text.
#[derive(Default, Debug, Clone, Copy, PartialEq, Eq, Structural)]
pub struct SourceLocation {
    pub line: usize,
    pub column: usize,
}

impl SourceLocation {
    /// Moves one column to the right.
    pub fn advance(&mut self)
        requires
            old(self).column < usize::MAX,
        ensures
            final(self).line == old(self).line,
            final(self).column == old(self).column + 1,
    {
        self.column += 1;
    }

    /// Moves to the start of the next line.
    pub fn newline(&mut self)
        requires
            old(self).line < usize::MAX,
        ensures
            final(self).line == old(self).line + 1,
            final(self).column == 0,
    {
        self.line += 1;
        self.column = 0;
    }
}

} // verus!
