use crate::span::Span;
use vstd::prelude::*;

verus! {

/// What a position of the buffer holds once it has been filled from
/// `source`: the same location and a clone of the item, or nothing where the
/// source had nothing left.
pub open spec fn delivered<I: Clone, S>(source: Option<(I, S)>, entry: Option<(I, S)>) -> bool {
    match source {
        Some(given) => entry matches Some(kept) && cloned(given.0, kept.0) && kept.1 == given.1,
        None => entry is None,
    }
}

/// One pull: the head of `before` is handed out and `after` is the rest; an
/// empty source hands out nothing and stays empty.
pub open spec fn yielded<I: Clone, S>(
    before: Seq<(I, S)>,
    after: Seq<(I, S)>,
    handed: Option<(I, S)>,
) -> bool {
    if before.len() > 0 {
        delivered(Some(before[0]), handed) && after == before.drop_first()
    } else {
        handed is None && after == before
    }
}

/// A forward-only source of items, each with its location. It can be read
/// once, front to back; once it has run dry it stays dry.
pub trait Producer<I: Clone, S: Span> {
    /// The producer's own invariant.
    spec fn wf(&self) -> bool;

    /// The items that have not been handed out yet, in the order in which
    /// they will come.
    spec fn remaining(&self) -> Seq<(I, S)>;

    /// Hands out the next item, or `None` when there is none left.
    fn pull(&mut self) -> (handed: Option<(I, S)>)
        requires
            old(self).wf(),
        ensures
            final(self).wf(),
            yielded(old(self).remaining(), final(self).remaining(), handed),
    ;
}

} // verus!
