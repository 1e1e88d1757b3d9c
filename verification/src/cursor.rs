use crate::producer::delivered;
use crate::producer::yielded;
use crate::span::Span;
use vstd::prelude::*;

verus! {

/// The abstract state of a stream: where it stands, what it has buffered and
/// what its producer still holds.
pub struct Cursor<I, S: Span> {
    /// The context of every location that the stream makes up itself.
    pub context: S::Context,
    /// The read position.
    pub offset: nat,
    /// The replay buffer: one entry for each position pulled so far, `None`
    /// where the producer had nothing left.
    pub entries: Seq<Option<(I, S)>>,
    /// What the producer has yet to hand out.
    pub pending: Seq<(I, S)>,
    /// How often the producer has been asked for an item.
    pub pulls: nat,
}

/// The larger of two numbers.
pub open spec fn larger(a: nat, b: nat) -> nat {
    if a >= b {
        a
    } else {
        b
    }
}

/// The smaller of two numbers.
pub open spec fn smaller(a: nat, b: nat) -> nat {
    if a <= b {
        a
    } else {
        b
    }
}

/// The position before `offset`; position 0 stands in for the one before
/// the first.
pub open spec fn before(offset: nat) -> nat {
    if offset == 0 {
        0
    } else {
        (offset - 1) as nat
    }
}

impl<I: Clone, S: Span> Cursor<I, S> {
    /// A stream that has not pulled anything yet.
    pub open spec fn fresh(context: S::Context, input: Seq<(I, S)>) -> Self {
        Cursor { context, offset: 0, entries: Seq::empty(), pending: input, pulls: 0 }
    }

    /// The buffer is in step with the producer: every position was pulled
    /// exactly once, nothing follows the end of the input but more of the
    /// end, and by then the producer is dry.
    pub open spec fn valid(self) -> bool {
        &&& self.pulls == self.entries.len()
        &&& forall|k: int|
            0 <= k < self.entries.len() && self.entries[k] is None ==> self.pending.len() == 0
        &&& forall|j: int, k: int|
            0 <= j <= k < self.entries.len() && self.entries[j] is None
                ==> self.entries[k] is None
    }

    /// What position `k` holds, or, where it has not been pulled yet, what
    /// the producer will be asked to deliver there.
    pub open spec fn slot(self, k: nat) -> Option<(I, S)> {
        if k < self.entries.len() {
            self.entries[k as int]
        } else if k - self.entries.len() < self.pending.len() {
            Some(self.pending[k - self.entries.len()])
        } else {
            None
        }
    }

    /// The end of the location at position `k`, as far as it is known.
    pub open spec fn end_at(self, k: nat) -> Option<usize> {
        match self.slot(k) {
            Some(entry) => entry.1.end_of(),
            None => None,
        }
    }

    /// The start of the location at position `k`, as far as it is known.
    pub open spec fn start_at(self, k: nat) -> Option<usize> {
        match self.slot(k) {
            Some(entry) => entry.1.start_of(),
            None => None,
        }
    }

    /// The same state with the read position at `mark`.
    pub open spec fn rewound(self, mark: nat) -> Self {
        Cursor { offset: mark, ..self }
    }

    /// `after` can be reached from `self` by reading on: the buffer has only
    /// grown at its end, each new entry was delivered by the producer for
    /// its position, and the producer was asked once for each of them. The
    /// read position is free.
    pub open spec fn evolved(self, after: Self) -> bool {
        let had = self.entries.len();
        let has = after.entries.len();
        &&& after.context == self.context
        &&& had <= has
        &&& after.pulls == self.pulls + (has - had)
        &&& after.pending == self.pending.skip(smaller((has - had) as nat, self.pending.len()) as int)
        &&& forall|k: int| 0 <= k < had ==> after.entries[k] == self.entries[k]
        &&& forall|k: int| had <= k < has ==> delivered(self.slot(k as nat), #[trigger] after.entries[k])
    }

    /// Every state is within its own reach.
    pub proof fn lemma_evolved_refl(state: Self)
        ensures
            state.evolved(state),
    {
        assert(state.pending.skip(0) =~= state.pending);
    }

    /// What is within reach of a state within reach is within reach.
    pub proof fn lemma_evolved_trans(first: Self, second: Self, third: Self)
        requires
            first.evolved(second),
            second.evolved(third),
        ensures
            first.evolved(third),
    {
        let grown = (third.entries.len() - first.entries.len()) as nat;
        assert(third.pending =~= first.pending.skip(smaller(grown, first.pending.len()) as int));
    }

    /// `after` is `self` after one pull: the buffer is longer by the entry
    /// that the producer handed out.
    pub open spec fn pulled(self, after: Self) -> bool {
        &&& after.context == self.context
        &&& after.offset == self.offset
        &&& after.pulls == self.pulls + 1
        &&& after.entries.len() == self.entries.len() + 1
        &&& after.entries.drop_last() == self.entries
        &&& yielded(self.pending, after.pending, after.entries.last())
    }

    /// One more pull keeps a state in order and leaves it within reach of
    /// every state that it was within reach of.
    pub proof fn lemma_pulled(start: Self, held: Self, now: Self)
        requires
            start.evolved(held),
            held.valid(),
            held.pulled(now),
        ensures
            start.evolved(now),
            now.valid(),
    {
        let had = start.entries.len();
        let grown: int = held.entries.len() - had;
        assert forall|k: int| 0 <= k < held.entries.len() implies now.entries[k]
            == held.entries[k] by {
            assert(now.entries.drop_last()[k] == now.entries[k]);
        }
        if held.pending.len() > 0 {
            assert(now.pending =~= start.pending.skip(grown + 1int));
        } else {
            assert(now.pending =~= start.pending.skip(
                smaller((grown + 1) as nat, start.pending.len()) as int,
            ));
        }
    }

    /// `after` is `self` once the buffer reaches position `k`: nothing is
    /// pulled where it already does, and otherwise exactly the missing
    /// positions are.
    pub open spec fn filled(self, after: Self, k: nat) -> bool {
        &&& self.evolved(after)
        &&& after.offset == self.offset
        &&& after.entries.len() == larger(self.entries.len(), k + 1)
    }

    /// `after` and `out` are what reading one item from `self` gives: the
    /// buffer reaches the read position; an item there is handed out with
    /// its position and location and the read position moves past it; at the
    /// end of input the read position stays and a location without bounds
    /// comes back.
    pub open spec fn stepped(self, after: Self, out: (usize, S, Option<I>)) -> bool {
        &&& self.filled(after.rewound(self.offset), self.offset)
        &&& out.0 == self.offset
        &&& match after.slot(self.offset) {
            Some(entry) => {
                &&& after.offset == self.offset + 1
                &&& out.1 == entry.1
                &&& out.2 matches Some(item) && cloned(entry.0, item)
            },
            None => {
                &&& after.offset == self.offset
                &&& out.1.context_of() == self.context
                &&& out.1.start_of() is None
                &&& out.1.end_of() is None
                &&& out.2 is None
            },
        }
    }

    /// `after` and `span` are what asking `self` for the empty location at
    /// the read position gives: the buffer reaches the read position, and
    /// the location runs from the end of the entry before it to the start of
    /// the entry at it.
    pub open spec fn bridged(self, after: Self, span: S) -> bool {
        &&& self.filled(after, self.offset)
        &&& span.context_of() == self.context
        &&& span.start_of() == after.end_at(before(self.offset))
        &&& span.end_of() == after.start_at(self.offset)
    }

    /// `after` is `self` after one operation of the stream: filling the
    /// buffer up to some position, reading an item, asking for the empty
    /// location at the read position, or putting the read position at some
    /// mark.
    pub open spec fn operated(self, after: Self) -> bool {
        ||| exists|k: nat| self.filled(after, k)
        ||| exists|out: (usize, S, Option<I>)| self.stepped(after, out)
        ||| exists|span: S| self.bridged(after, span)
        ||| exists|mark: nat| after == self.rewound(mark)
    }
}

} // verus!
