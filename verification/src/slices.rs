use crate::cursor::Cursor;
use crate::producer::Producer;
use crate::span::Span;
use crate::stream::Stream;
use crate::text::numbered;
use std::ops::Range;
use vstd::prelude::*;
use vstd::std_specs::convert::FromSpecImpl;

verus! {

/// The items of a slice, one by one, each cloned and given its place by its
/// index.
pub struct Items<'a, T> {
    items: &'a [T],
    index: usize,
}

impl<'a, T: Clone> Items<'a, T> {
    /// A producer at the start of `items`.
    pub fn new(items: &'a [T]) -> (source: Self)
        ensures
            source.wf(),
            source.remaining() == numbered(items@, 0),
    {
        Items { items, index: 0 }
    }
}

impl<'a, T: Clone> Producer<T, Range<Option<usize>>> for Items<'a, T> {
    closed spec fn wf(&self) -> bool {
        self.index <= self.items@.len()
    }

    closed spec fn remaining(&self) -> Seq<(T, Range<Option<usize>>)> {
        numbered(self.items@.skip(self.index as int), self.index as nat)
    }

    fn pull(&mut self) -> (handed: Option<(T, Range<Option<usize>>)>) {
        let at: usize = self.index;
        if at < self.items.len() {
            let item = self.items[at].clone();
            self.index = at + 1;
            assert(self.remaining() =~= old(self).remaining().drop_first());
            Some((item, Some(at)..Some(at + 1)))
        } else {
            None
        }
    }
}

/// The items of a slice that come with their locations, one by one, each
/// item cloned and each location kept as it is.
pub struct Spanned<'a, T, S> {
    items: &'a [(T, S)],
    index: usize,
}

impl<'a, T: Clone, S: Span> Spanned<'a, T, S> {
    /// A producer at the start of `items`.
    pub fn new(items: &'a [(T, S)]) -> (source: Self)
        ensures
            source.wf(),
            source.remaining() == items@,
    {
        Spanned { items, index: 0 }
    }
}

impl<'a, T: Clone, S: Span> Producer<T, S> for Spanned<'a, T, S> {
    closed spec fn wf(&self) -> bool {
        self.index <= self.items@.len()
    }

    closed spec fn remaining(&self) -> Seq<(T, S)> {
        self.items@.skip(self.index as int)
    }

    fn pull(&mut self) -> (handed: Option<(T, S)>) {
        let at: usize = self.index;
        if at < self.items.len() {
            let item = self.items[at].0.clone();
            let span = self.items[at].1.duplicate();
            self.index = at + 1;
            assert(self.remaining() =~= old(self).remaining().drop_first());
            Some((item, span))
        } else {
            None
        }
    }
}

impl<'a, T: Clone> From<&'a [T]> for Stream<T, Range<Option<usize>>, Items<'a, T>> {
    /// A stream over clones of the items of a slice, each with the place it
    /// has in the slice.
    fn from(items: &'a [T]) -> (stream: Self)
        ensures
            stream.wf(),
            stream@ == Cursor::<T, Range<Option<usize>>>::fresh((), numbered(items@, 0)),
    {
        Stream::new((), Items::new(items))
    }
}

impl<'a, T: Clone> FromSpecImpl<&'a [T]> for Stream<T, Range<Option<usize>>, Items<'a, T>> {
    open spec fn obeys_from_spec() -> bool {
        false
    }

    open spec fn from_spec(items: &'a [T]) -> Self {
        arbitrary()
    }
}

impl<'a, T: Clone, S: Span<Context = ()>> From<&'a [(T, S)]> for Stream<T, S, Spanned<'a, T, S>> {
    /// A stream over clones of the items of a slice, each with the location
    /// that the slice gives it.
    fn from(items: &'a [(T, S)]) -> (stream: Self)
        ensures
            stream.wf(),
            stream@ == Cursor::<T, S>::fresh((), items@),
    {
        Stream::new((), Spanned::new(items))
    }
}

impl<'a, T: Clone, S: Span<Context = ()>> FromSpecImpl<&'a [(T, S)]> for Stream<T, S, Spanned<'a, T, S>> {
    open spec fn obeys_from_spec() -> bool {
        false
    }

    open spec fn from_spec(items: &'a [(T, S)]) -> Self {
        arbitrary()
    }
}

} // verus!
