use crate::cursor::Cursor;
use crate::producer::Producer;
use crate::stream::Stream;
use std::ops::Range;
use vstd::prelude::*;
use vstd::std_specs::convert::FromSpecImpl;
use vstd::string::StrSliceExecFns;
use vstd::string::StringSliceAdditionalSpecFns;
use vstd::utf8::encode_scalar;
use vstd::utf8::encode_utf8;
use vstd::utf8::is_char_boundary;
use vstd::utf8::valid_utf8;

verus! {

/// The location of the item at `index`: the one place from `index` to the
/// next.
pub open spec fn place(index: nat) -> Range<Option<usize>> {
    Range { start: Some(index as usize), end: Some((index + 1) as usize) }
}

/// `items`, each with its place, the first of them at `from`.
pub open spec fn numbered<T>(items: Seq<T>, from: nat) -> Seq<(T, Range<Option<usize>>)> {
    Seq::new(items.len(), |i: int| (items[i], place((from + i) as nat)))
}

/// Text takes at least one byte for each of its characters.
pub proof fn lemma_chars_fit_bytes(chars: Seq<char>)
    ensures
        chars.len() <= encode_utf8(chars).len(),
    decreases chars.len(),
{
    if chars.len() > 0 {
        lemma_chars_fit_bytes(chars.drop_first());
    }
}

/// The bytes of a text start with those of its first character, and what
/// follows them is the text without that character.
pub proof fn lemma_first_char(chars: Seq<char>)
    requires
        chars.len() > 0,
    ensures
        valid_utf8(encode_utf8(chars)),
        is_char_boundary(encode_utf8(chars), encode_scalar(chars[0] as u32).len() as int),
        encode_utf8(chars).subrange(
            encode_scalar(chars[0] as u32).len() as int,
            encode_utf8(chars).len() as int,
        ) == encode_utf8(chars.drop_first()),
{
    let bytes = encode_utf8(chars);
    let head = encode_scalar(chars[0] as u32);
    let tail = encode_utf8(chars.drop_first());
    vstd::utf8::encode_utf8_valid_utf8(chars);
    vstd::utf8::encode_utf8_first_scalar(chars);
    assert(is_char_boundary(bytes, head.len() as int)) by {
        reveal_with_fuel(is_char_boundary, 2);
    }
}

/// The number of bytes that `c` takes in UTF-8.
pub fn width(c: char) -> (bytes: usize)
    ensures
        bytes == encode_scalar(c as u32).len(),
{
    broadcast use vstd::utf8::char_is_scalar;

    let scalar: u32 = c as u32;
    if scalar < 0x80 {
        1
    } else if scalar < 0x800 {
        2
    } else if scalar < 0x10000 {
        3
    } else {
        4
    }
}

/// The characters of a text, one by one, each with its place counted in
/// characters.
pub struct Text<'a> {
    rest: &'a str,
    index: usize,
}

impl<'a> Text<'a> {
    /// A producer at the start of `text`.
    pub fn new(text: &'a str) -> (source: Self)
        ensures
            source.wf(),
            source.remaining() == numbered(text@, 0),
    {
        broadcast use vstd::slice::axiom_spec_len;

        let bytes = text.as_bytes();
        proof {
            lemma_chars_fit_bytes(text@);
            assert(bytes@.len() == vstd::slice::spec_slice_len(bytes));
        }
        Text { rest: text, index: 0 }
    }
}

impl<'a> Producer<char, Range<Option<usize>>> for Text<'a> {
    closed spec fn wf(&self) -> bool {
        self.index + self.rest@.len() <= usize::MAX
    }

    closed spec fn remaining(&self) -> Seq<(char, Range<Option<usize>>)> {
        numbered(self.rest@, self.index as nat)
    }

    fn pull(&mut self) -> (handed: Option<(char, Range<Option<usize>>)>) {
        if self.rest.is_empty() {
            None
        } else {
            let c = self.rest.get_char(0);
            proof {
                lemma_first_char(self.rest@);
            }
            let (_, tail) = self.rest.split_at(width(c));
            proof {
                vstd::utf8::encode_utf8_decode_utf8(tail@);
                vstd::utf8::encode_utf8_decode_utf8(self.rest@.drop_first());
            }
            let at: usize = self.index;
            self.rest = tail;
            self.index = at + 1;
            assert(self.remaining() =~= old(self).remaining().drop_first());
            Some((c, Some(at)..Some(at + 1)))
        }
    }
}

impl<'a> From<&'a str> for Stream<char, Range<Option<usize>>, Text<'a>> {
    /// A stream over the characters of `text`, each with the place it has
    /// among them.
    fn from(text: &'a str) -> (stream: Self)
        ensures
            stream.wf(),
            stream@ == Cursor::<char, Range<Option<usize>>>::fresh((), numbered(text@, 0)),
    {
        Stream::new((), Text::new(text))
    }
}

impl<'a> FromSpecImpl<&'a str> for Stream<char, Range<Option<usize>>, Text<'a>> {
    open spec fn obeys_from_spec() -> bool {
        false
    }

    open spec fn from_spec(text: &'a str) -> Self {
        arbitrary()
    }
}

} // verus!
