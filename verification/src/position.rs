//! Source positions: a position is a byte offset from a file's base, and a
//! file records the offsets its lines start at so an offset can be turned
//! into a line and column.

use vstd::prelude::*;

verus! {

/// A byte offset into a file, counted from the file's base.
pub type Pos = usize;

/// A resolved position: line and column are 1-based.
#[derive(Debug, Clone, Copy, PartialEq, Eq, Structural)]
pub struct Position {
    pub offset: Pos,
    pub line: usize,
    pub column: usize,
}

/// One source file: its name, the base offset of its positions, its size,
/// and the offsets at which its lines begin.  The first line begins at
/// offset zero.
#[derive(Debug)]
pub struct File {
    pub name: String,
    pub base: usize,
    pub size: usize,
    pub lines: Vec<usize>,
}

impl File {
    pub fn new(name: String, base: usize, size: usize) -> (r: File)
        ensures
            r.name@ == name@,
            r.base == base,
            r.size == size,
            r.lines@ == seq![0usize],
    {
        let mut lines: Vec<usize> = Vec::new();
        lines.push(0);
        proof {
            assert(lines@ =~= seq![0usize]);
        }
        File { name: name, base: base, size: size, lines: lines }
    }

    pub fn base(&self) -> (r: usize)
        ensures
            r == self.base,
    {
        self.base
    }

    pub fn size(&self) -> (r: usize)
        ensures
            r == self.size,
    {
        self.size
    }

    /// Records that a new line begins at `offset`.
    pub fn add_line(&mut self, offset: usize)
        ensures
            final(self).lines@ == old(self).lines@.push(offset),
            *final(self) == (File { lines: final(self).lines, ..*old(self) }),
    {
        self.lines.push(offset);
    }

    /// Resolves an offset to its line and column: the line is the last
    /// recorded line start at or before the offset.
    #[verifier::loop_isolation(false)]
    pub fn position(&self, pos: Pos) -> (r: Position)
        requires
            self.lines@.len() > 0,
        ensures
            r.offset == pos,
            r.line >= 1,
    {
        let mut line: usize = 0;
        let mut i: usize = 0;
        while i < self.lines.len()
            invariant
                0 <= i <= self.lines@.len(),
                0 <= line < self.lines@.len(),
                line <= i,
            decreases self.lines@.len() - i,
        {
            if self.lines[i] <= pos {
                line = i;
            }
            i = i + 1;
        }
        let start = self.lines[line];
        let column = if pos >= start && pos - start < usize::MAX {
            pos - start + 1
        } else {
            1
        };
        Position { offset: pos, line: line + 1, column: column }
    }
}

} // verus!
