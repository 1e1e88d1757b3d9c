use crate::cursor::before;
use crate::cursor::larger;
use crate::cursor::smaller;
use crate::cursor::Cursor;
use crate::producer::delivered;
use crate::producer::Producer;
use crate::span::Span;
use crate::stream::succeeded;
use crate::stream::PResult;
use crate::stream::Stream;
use vstd::prelude::*;

verus! {

/// A stream that has not pulled anything is in order.
pub proof fn law_fresh_valid<I: Clone, S: Span>(context: S::Context, input: Seq<(I, S)>)
    ensures
        Cursor::<I, S>::fresh(context, input).valid(),
        Cursor::<I, S>::fresh(context, input).pulls == 0,
{
}

/// Whatever one operation of a stream does, it only reads on: the state
/// after it is within reach of the state before it.
pub proof fn law_operated_evolved<I: Clone, S: Span>(pre: Cursor<I, S>, post: Cursor<I, S>)
    requires
        pre.operated(post),
    ensures
        pre.evolved(post),
{
    if exists|mark: nat| post == pre.rewound(mark) {
        Cursor::lemma_evolved_refl(pre);
    }
}

/// Reading on keeps a stream in order. In particular the producer has been
/// asked exactly once for each position that the buffer holds.
pub proof fn law_valid_kept<I: Clone, S: Span>(pre: Cursor<I, S>, post: Cursor<I, S>)
    requires
        pre.valid(),
        pre.evolved(post),
    ensures
        post.valid(),
        post.pulls == post.entries.len(),
{
}

/// Pull once: over any run of operations that starts from a stream in
/// order, the producer is asked exactly once for each position that is ever
/// buffered, however often the read position comes back to it. After every
/// operation of the run the number of pulls is the length of the buffer, and
/// what was buffered at the start is still there as it was.
pub proof fn law_pull_once<I: Clone, S: Span>(run: Seq<Cursor<I, S>>, at: int)
    requires
        0 <= at < run.len(),
        run[0].valid(),
        forall|i: int| #![trigger run[i]] 0 <= i < run.len() - 1 ==> run[i].operated(run[i + 1]),
    ensures
        run[at].valid(),
        run[at].pulls == run[at].entries.len(),
        run[0].evolved(run[at]),
    decreases at,
{
    if at == 0 {
        Cursor::lemma_evolved_refl(run[0]);
    } else {
        law_pull_once(run, at - 1);
        law_operated_evolved(run[at - 1], run[at]);
        Cursor::lemma_evolved_trans(run[0], run[at - 1], run[at]);
        law_valid_kept(run[0], run[at]);
    }
}

/// After an item was read or the empty location at the read position was
/// asked for, the read position lies within the buffer or at its end.
pub proof fn law_offset_within_buffer<I: Clone, S: Span>(pre: Cursor<I, S>, post: Cursor<I, S>)
    requires
        (exists|out: (usize, S, Option<I>)| pre.stepped(post, out)) || (exists|span: S|
            pre.bridged(post, span)),
    ensures
        post.offset <= post.entries.len(),
{
}

/// Going over a position that the buffer already holds changes nothing: the
/// producer is not asked, and the buffer stays as it is.
pub proof fn law_revisit_is_free<I: Clone, S: Span>(pre: Cursor<I, S>, post: Cursor<I, S>, k: nat)
    requires
        k < pre.entries.len(),
        pre.filled(post, k),
    ensures
        post == pre,
{
    assert(post.entries =~= pre.entries);
    assert(post.pending =~= pre.pending);
}

/// Reading on changes no position of the input: what a position holds stays
/// as it is once it is buffered, and when it is pulled it is delivered from
/// what the producer held for it, with the same location.
pub proof fn law_input_fixed<I: Clone, S: Span>(pre: Cursor<I, S>, post: Cursor<I, S>, k: nat)
    requires
        pre.evolved(post),
    ensures
        post.slot(k) == pre.slot(k) || delivered(pre.slot(k), post.slot(k)),
        k < pre.entries.len() ==> post.slot(k) == pre.slot(k),
        post.start_at(k) == pre.start_at(k),
        post.end_at(k) == pre.end_at(k),
{
}

/// Revert exactness: a mark is taken at `saved`, the stream reads on in any
/// way to `reached`, and is put back to the mark. The read position is then
/// the mark, and reading one item there gives what reading at `saved` could
/// have given: the same position, the same location, and an item cloned from
/// the same place, as if the stream had never read on.
pub proof fn law_revert_exact<I: Clone, S: Span>(
    saved: Cursor<I, S>,
    reached: Cursor<I, S>,
    after: Cursor<I, S>,
    out: (usize, S, Option<I>),
)
    requires
        saved.evolved(reached),
        reached.rewound(saved.offset).stepped(after, out),
    ensures
        reached.rewound(saved.offset).offset == saved.offset,
        out.0 == saved.offset,
        exists|same: Cursor<I, S>| saved.stepped(same, out),
        saved.offset < saved.entries.len() ==> after.slot(saved.offset)
            == saved.entries[saved.offset as int],
{
    let mark = saved.offset;
    let had = saved.entries.len();
    let want = larger(had, mark + 1);
    let grown = (want - had) as nat;
    Cursor::lemma_evolved_trans(saved, reached.rewound(mark), after.rewound(mark));
    let same = Cursor::<I, S> {
        context: saved.context,
        offset: after.offset,
        entries: after.entries.take(want as int),
        pending: saved.pending.skip(smaller(grown, saved.pending.len()) as int),
        pulls: saved.pulls + grown,
    };
    assert(saved.stepped(same, out));
}

/// Idempotent exhaustion: once reading gives no item, reading again gives no
/// item either, at the same position, and leaves the stream exactly as it
/// is, so that this holds however often it is done.
pub proof fn law_exhaustion_idempotent<I: Clone, S: Span>(
    pre: Cursor<I, S>,
    mid: Cursor<I, S>,
    post: Cursor<I, S>,
    first: (usize, S, Option<I>),
    second: (usize, S, Option<I>),
)
    requires
        pre.stepped(mid, first),
        first.2 is None,
        mid.stepped(post, second),
    ensures
        mid.offset == pre.offset,
        post == mid,
        second.0 == first.0,
        second.2 is None,
        second.1.start_of() is None,
        second.1.end_of() is None,
        second.1.context_of() == first.1.context_of(),
{
    let at = pre.offset;
    assert(post.rewound(at).entries =~= mid.entries);
    assert(post.rewound(at).pending =~= mid.pending);
}

/// Zero-span boundaries: the empty location at the read position starts
/// where the entry before it ends and ends where the entry at it starts, as
/// the input has them from the beginning. So at the end of input its end is
/// unknown; between two items its bounds are the end of the one and the
/// start of the other; and at position 0, where the entry at 0 stands in
/// for the one before, its start is unknown where the input is empty or its
/// first location has no end.
pub proof fn law_zero_span_bounds<I: Clone, S: Span>(
    pre: Cursor<I, S>,
    post: Cursor<I, S>,
    span: S,
)
    requires
        pre.bridged(post, span),
    ensures
        span.start_of() == pre.end_at(before(pre.offset)),
        span.end_of() == pre.start_at(pre.offset),
        pre.slot(pre.offset) is None ==> span.end_of() is None,
        pre.offset > 0 ==> (match (pre.slot((pre.offset - 1) as nat), pre.slot(pre.offset)) {
            (Some(last), Some(next)) => span.start_of() == last.1.end_of() && span.end_of()
                == next.1.start_of(),
            _ => true,
        }),
        pre.offset == 0 ==> (match pre.slot(0) {
            Some(first) => first.1.end_of() is None ==> span.start_of() is None,
            None => span.start_of() is None,
        }),
{
    law_input_fixed(pre, post, before(pre.offset));
    law_input_fixed(pre, post, pre.offset);
}

/// Commit semantics of a trial: if it does not commit, the read position is
/// back at the mark, however far the trial read, while the buffer keeps what
/// the trial pulled; if it commits, the stream is as the trial left it.
pub proof fn law_trial_settled<I: Clone, S: Span, P: Producer<I, S>>(
    after: Stream<I, S, P>,
    reached: Stream<I, S, P>,
    commit: bool,
    mark: nat,
)
    requires
        after.settles(&reached, commit, mark),
    ensures
        commit ==> after@ == reached@,
        !commit ==> after@.offset == mark,
        after@.entries == reached@.entries,
        after@.pending == reached@.pending,
        after@.pulls == reached@.pulls,
        after@.context == reached@.context,
        after.wf() == reached.wf(),
{
}

/// `try_parse` is `attempt` with the flag read off the result: where the
/// trial `g` does what `f` does and returns, in front of the outcome of
/// `f`, whether that outcome is a success, `attempt` makes of `g` exactly
/// what `try_parse` makes of `f`.
pub proof fn law_try_parse_is_attempt<I: Clone, S: Span, P: Producer<I, S>, N, O, E, F, G>(
    pre: Stream<I, S, P>,
    post: Stream<I, S, P>,
    f: F,
    g: G,
    out: PResult<N, O, E>,
) where
    F: FnOnce(&mut Stream<I, S, P>) -> PResult<N, O, E>,
    G: FnOnce(&mut Stream<I, S, P>) -> (bool, PResult<N, O, E>),

    requires
        forall|inner: &mut Stream<I, S, P>, commit: bool, given: PResult<N, O, E>|
            #[trigger] call_ensures(g, (inner,), (commit, given)) <==> call_ensures(
                f,
                (inner,),
                given,
            ) && commit == succeeded(given),
    ensures
        (exists|inner: &mut Stream<I, S, P>, commit: bool|
            *inner == pre && #[trigger] call_ensures(g, (inner,), (commit, out)) && post.settles(
                final(inner),
                commit,
                pre@.offset,
            )) <==> (exists|inner: &mut Stream<I, S, P>|
            *inner == pre && #[trigger] call_ensures(f, (inner,), out) && post.settles(
                final(inner),
                succeeded(out),
                pre@.offset,
            )),
{
    if exists|inner: &mut Stream<I, S, P>|
        *inner == pre && #[trigger] call_ensures(f, (inner,), out) && post.settles(
            final(inner),
            succeeded(out),
            pre@.offset,
        ) {
        let inner = choose|inner: &mut Stream<I, S, P>|
            *inner == pre && #[trigger] call_ensures(f, (inner,), out) && post.settles(
                final(inner),
                succeeded(out),
                pre@.offset,
            );
        assert(call_ensures(g, (inner,), (succeeded(out), out)));
    }
}

} // verus!
