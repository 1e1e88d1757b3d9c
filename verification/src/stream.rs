use crate::cursor::Cursor;
use crate::producer::Producer;
use crate::span::Span;
use vstd::prelude::*;

verus! {

/// The outcome of a parsing step: what the step has to report besides, and
/// whether it succeeded, with what it found or why it failed.
pub type PResult<N, O, E> = (N, Result<O, E>);

/// Whether the step succeeded.
pub open spec fn succeeded<N, O, E>(out: PResult<N, O, E>) -> bool {
    out.1 is Ok
}

/// A replayable cursor over a forward-only producer of items. Whatever is
/// pulled from the producer is kept, so the read position can go back to any
/// place it has been at without the producer being asked again.
pub struct Stream<I: Clone, S: Span, P: Producer<I, S>> {
    ctx: S::Context,
    offset: usize,
    buffer: Vec<Option<(I, S)>>,
    producer: P,
    pulls: Ghost<nat>,
}

impl<I: Clone, S: Span, P: Producer<I, S>> View for Stream<I, S, P> {
    type V = Cursor<I, S>;

    closed spec fn view(&self) -> Cursor<I, S> {
        Cursor {
            context: self.ctx,
            offset: self.offset as nat,
            entries: self.buffer@,
            pending: self.producer.remaining(),
            pulls: self.pulls@,
        }
    }
}

impl<I: Clone, S: Span, P: Producer<I, S>> Stream<I, S, P> {
    /// The producer's own invariant holds.
    pub closed spec fn producer_wf(&self) -> bool {
        self.producer.wf()
    }

    /// The stream is in order: its buffer is in step with its producer.
    pub open spec fn wf(&self) -> bool {
        &&& self@.valid()
        &&& self.producer_wf()
    }

    /// A stream at position 0 over what `producer` has to give, with nothing
    /// pulled yet.
    pub fn new(context: S::Context, producer: P) -> (stream: Self)
        requires
            producer.wf(),
        ensures
            stream.wf(),
            stream@ == Cursor::<I, S>::fresh(context, producer.remaining()),
    {
        Stream { ctx: context, offset: 0, buffer: Vec::new(), producer, pulls: Ghost(0) }
    }

    /// The read position.
    pub fn offset(&self) -> (offset: usize)
        ensures
            offset == self@.offset,
    {
        self.offset
    }

    /// A mark for the read position, to come back to with `revert`.
    pub fn save(&self) -> (mark: usize)
        ensures
            mark == self@.offset,
    {
        self.offset
    }

    /// Puts the read position at `mark`. The buffer and the producer are
    /// left as they are.
    pub fn revert(&mut self, mark: usize)
        ensures
            final(self)@ == old(self)@.rewound(mark as nat),
            final(self).producer_wf() == old(self).producer_wf(),
    {
        self.offset = mark;
    }

    /// Fills the buffer up to position `offset`, with one pull for each
    /// position that it does not reach yet, and returns the entry there.
    pub fn pull_until(&mut self, offset: usize) -> (entry: &Option<(I, S)>)
        requires
            old(self).wf(),
        ensures
            final(self).wf(),
            old(self)@.filled(final(self)@, offset as nat),
            *entry == final(self)@.entries[offset as int],
    {
        proof {
            Cursor::lemma_evolved_refl(self@);
        }
        while self.buffer.len() <= offset
            invariant
                self.wf(),
                old(self)@.evolved(self@),
                self@.offset == old(self)@.offset,
                self.buffer.len() == old(self).buffer.len() || self.buffer.len() <= offset + 1,
            decreases offset + 1 - self.buffer.len(),
        {
            let ghost held = self@;
            let handed = self.producer.pull();
            self.buffer.push(handed);
            proof {
                self.pulls@ = self.pulls@ + 1;
                assert(self@.entries.drop_last() =~= held.entries);
                Cursor::lemma_pulled(old(self)@, held, self@);
            }
        }
        &self.buffer[offset]
    }

    /// Reads one item: returns the position it stands at, its location and
    /// the item itself, and moves past it. At the end of input nothing moves,
    /// and what comes back is the position, a location without bounds and no
    /// item, however often this is asked.
    pub fn next(&mut self) -> (out: (usize, S, Option<I>))
        requires
            old(self).wf(),
        ensures
            final(self).wf(),
            old(self)@.stepped(final(self)@, out),
    {
        let at: usize = self.offset;
        match self.pull_until(at) {
            Some((item, span)) => {
                let item = item.clone();
                let span = span.duplicate();
                assert(at < self.buffer.len());
                self.offset = at + 1;
                (at, span, Some(item))
            },
            None => (at, S::new(&self.ctx, None, None), None),
        }
    }

    /// The empty location at the read position: it runs from the end of the
    /// entry before the read position to the start of the entry at it. At
    /// position 0 the entry at 0 stands in for the one before.
    pub fn zero_span(&mut self) -> (span: S)
        requires
            old(self).wf(),
        ensures
            final(self).wf(),
            old(self)@.bridged(final(self)@, span),
    {
        let at: usize = self.offset;
        let start = match self.pull_until(at.saturating_sub(1)) {
            Some((_, span)) => span.end(),
            None => None,
        };
        let ghost held = self@;
        let end = match self.pull_until(at) {
            Some((_, span)) => span.start(),
            None => None,
        };
        proof {
            Cursor::lemma_evolved_trans(old(self)@, held, self@);
        }
        S::new(&self.ctx, start, end)
    }

    /// `self` is what is left of `reached`, the stream as a trial left it,
    /// once the trial is settled: all of it if the trial commits, and all
    /// but the read position, which goes back to `mark`, if it does not.
    pub open spec fn settles(&self, reached: &Self, commit: bool, mark: nat) -> bool {
        &&& self@ == if commit {
            reached@
        } else {
            reached@.rewound(mark)
        }
        &&& self.producer_wf() == reached.producer_wf()
    }

    /// Runs the trial `f` on the stream. `f` returns a flag and a result:
    /// with the flag set, whatever `f` did to the stream stays; without it,
    /// the read position goes back to where it was before `f` ran, while
    /// what `f` pulled into the buffer stays there. The result is handed on.
    pub fn attempt<R, F: FnOnce(&mut Self) -> (bool, R)>(&mut self, f: F) -> (out: R)
        requires
            forall|inner: &mut Self| *inner == *old(self) ==> call_requires(f, (inner,)),
        ensures
            exists|inner: &mut Self, commit: bool|
                *inner == *old(self) && #[trigger] call_ensures(f, (inner,), (commit, out))
                    && final(self).settles(final(inner), commit, old(self)@.offset),
    {
        let mark: usize = self.offset;
        let (commit, out) = f(self);
        if !commit {
            self.offset = mark;
        }
        out
    }

    /// Runs the trial `f` on the stream and settles it by how it ends: what
    /// `f` did stays if it returns `Ok`, and the read position goes back to
    /// where it was if it returns `Err`. The outcome is handed on.
    pub fn try_parse<N, O, E, F: FnOnce(&mut Self) -> PResult<N, O, E>>(&mut self, f: F) -> (out:
        PResult<N, O, E>)
        requires
            forall|inner: &mut Self| *inner == *old(self) ==> call_requires(f, (inner,)),
        ensures
            exists|inner: &mut Self|
                *inner == *old(self) && #[trigger] call_ensures(f, (inner,), out)
                    && final(self).settles(final(inner), succeeded(out), old(self)@.offset),
    {
        let trial = move |stream: &mut Self| -> (settled: (bool, PResult<N, O, E>))
            requires
                forall|inner: &mut Self| *inner == *old(stream) ==> call_requires(f, (inner,)),
            ensures
                exists|inner: &mut Self|
                    *inner == *old(stream) && *final(inner) == *final(stream)
                        && #[trigger] call_ensures(f, (inner,), settled.1),
                settled.0 == succeeded(settled.1),
            {
                let out = f(stream);
                let settled = (out.1.is_ok(), out);
                assert(settled.1 == out);
                settled
            };
        self.attempt(trial)
    }
}

} // verus!
