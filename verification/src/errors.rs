//! The list a front end accumulates its diagnostics in: it only grows, and
//! parsing continues after an error where recovery is possible.

use vstd::prelude::*;
use crate::position::Position;

verus! {

/// One diagnostic: where, and what.
#[derive(Debug)]
pub struct FrontError {
    pub pos: Position,
    pub msg: String,
}

/// The accumulated diagnostics, in the order they were raised.
#[derive(Debug)]
pub struct ErrorList {
    pub errs: Vec<FrontError>,
}

impl ErrorList {
    pub fn new() -> (r: ErrorList)
        ensures
            r.errs@ =~= Seq::<FrontError>::empty(),
    {
        ErrorList { errs: Vec::new() }
    }

    pub fn len(&self) -> (r: usize)
        ensures
            r == self.errs@.len(),
    {
        self.errs.len()
    }

    /// Appends one diagnostic.
    pub fn add(&mut self, pos: Position, msg: String)
        ensures
            final(self).errs@.len() == old(self).errs@.len() + 1,
            final(self).errs@.subrange(0, old(self).errs@.len() as int) == old(self).errs@,
            final(self).errs@.last().pos == pos,
            final(self).errs@.last().msg@ == msg@,
    {
        self.errs.push(FrontError { pos: pos, msg: msg });
        proof {
            assert(self.errs@.subrange(0, old(self).errs@.len() as int) =~= old(self).errs@);
        }
    }
}

} // verus!
