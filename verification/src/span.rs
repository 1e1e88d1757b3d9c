use std::ops::Range;
use vstd::prelude::*;

verus! {

/// A location in the input: a stretch of positions whose ends may each be
/// unknown, tagged with a context shared by every location of one input.
pub trait Span: Sized {
    /// What all locations of one input have in common, such as the name of
    /// the file they point into.
    type Context;

    /// The context this location was built with.
    spec fn context_of(&self) -> Self::Context;

    /// The start that `start` reports.
    spec fn start_of(&self) -> Option<usize>;

    /// The end that `end` reports.
    spec fn end_of(&self) -> Option<usize>;

    /// Builds the location that lies in `context` between `start` and `end`.
    fn new(context: &Self::Context, start: Option<usize>, end: Option<usize>) -> (span: Self)
        ensures
            span.context_of() == *context,
            span.start_of() == start,
            span.end_of() == end,
    ;

    /// Where the location begins, `None` where that is unknown.
    fn start(&self) -> (start: Option<usize>)
        ensures
            start == self.start_of(),
    ;

    /// Where the location ends, `None` where that is unknown.
    fn end(&self) -> (end: Option<usize>)
        ensures
            end == self.end_of(),
    ;

    /// A second copy of this location, equal to it in every respect.
    fn duplicate(&self) -> (copy: Self)
        ensures
            copy == *self,
    ;
}

/// A range of positions with open ends is a location of an input that has
/// no context.
impl Span for Range<Option<usize>> {
    type Context = ();

    open spec fn context_of(&self) -> () {
        ()
    }

    open spec fn start_of(&self) -> Option<usize> {
        self.start
    }

    open spec fn end_of(&self) -> Option<usize> {
        self.end
    }

    fn new(context: &(), start: Option<usize>, end: Option<usize>) -> (span: Self) {
        start..end
    }

    fn start(&self) -> (start: Option<usize>) {
        self.start
    }

    fn end(&self) -> (end: Option<usize>) {
        self.end
    }

    fn duplicate(&self) -> (copy: Self) {
        self.start..self.end
    }
}

} // verus!
