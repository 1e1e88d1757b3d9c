use replay_stream::Items;
use replay_stream::Spanned;
use replay_stream::Text;
use replay_stream::Stream;
use std::ops::Range;

type TextStream<'a> = Stream<char, Range<Option<usize>>, Text<'a>>;

fn at(from: usize) -> Range<Option<usize>> {
    Some(from)..Some(from + 1)
}

#[test]
fn text_is_read_item_by_item() {
    let mut stream: TextStream = Stream::from("ab");
    assert_eq!(stream.next(), (0, Some(0)..Some(1), Some('a')));
    assert_eq!(stream.next(), (1, Some(1)..Some(2), Some('b')));
    assert_eq!(stream.next(), (2, None..None, None));
    assert_eq!(stream.next(), (2, None..None, None));
}

#[test]
fn revert_reads_the_same_item_again() {
    let mut stream: TextStream = Stream::from("abc");
    assert_eq!(stream.next(), (0, at(0), Some('a')));
    let mark = stream.save();
    assert_eq!(mark, 1);
    assert_eq!(stream.next(), (1, Some(1)..Some(2), Some('b')));
    assert_eq!(stream.next(), (2, Some(2)..Some(3), Some('c')));
    assert_eq!(stream.offset(), 3);
    assert_eq!(stream.next(), (3, None..None, None));
    stream.revert(1);
    assert_eq!(stream.offset(), 1);
    assert_eq!(stream.next(), (1, Some(1)..Some(2), Some('b')));
}

#[test]
fn revert_after_the_end_was_seen() {
    let mut stream: TextStream = Stream::from("ab");
    stream.next();
    let mark = stream.save();
    assert_eq!(stream.next(), (1, Some(1)..Some(2), Some('b')));
    assert_eq!(stream.next(), (2, None..None, None));
    assert_eq!(stream.offset(), 2);
    stream.revert(mark);
    assert_eq!(stream.next(), (1, Some(1)..Some(2), Some('b')));
    assert_eq!(stream.next(), (2, None..None, None));
}

#[test]
fn a_fresh_stream_stands_at_zero() {
    let stream: TextStream = Stream::from("abc");
    assert_eq!(stream.offset(), 0);
    assert_eq!(stream.save(), 0);
}

#[test]
fn empty_text_is_exhausted_at_once() {
    let mut stream: TextStream = Stream::from("");
    assert_eq!(stream.next(), (0, None..None, None));
    assert_eq!(stream.next(), (0, None..None, None));
    assert_eq!(stream.offset(), 0);
    assert_eq!(stream.zero_span(), None..None);
}

#[test]
fn exhaustion_is_idempotent() {
    let mut stream: TextStream = Stream::from("x");
    assert_eq!(stream.next(), (0, at(0), Some('x')));
    let end = stream.next();
    assert_eq!(end, (1, None..None, None));
    for _ in 0..10 {
        assert_eq!(stream.next(), end);
        assert_eq!(stream.offset(), 1);
    }
}

#[test]
fn places_count_characters_not_bytes() {
    let mut stream: TextStream = Stream::from("a\u{e9}\u{20ac}\u{1f600}z");
    assert_eq!(stream.next(), (0, at(0), Some('a')));
    assert_eq!(stream.next(), (1, at(1), Some('\u{e9}')));
    assert_eq!(stream.next(), (2, at(2), Some('\u{20ac}')));
    assert_eq!(stream.next(), (3, at(3), Some('\u{1f600}')));
    assert_eq!(stream.next(), (4, at(4), Some('z')));
    assert_eq!(stream.next(), (5, None..None, None));
}

#[test]
fn widths_follow_utf8() {
    assert_eq!(replay_stream::text::width('a'), 1);
    assert_eq!(replay_stream::text::width('\u{7f}'), 1);
    assert_eq!(replay_stream::text::width('\u{80}'), 2);
    assert_eq!(replay_stream::text::width('\u{7ff}'), 2);
    assert_eq!(replay_stream::text::width('\u{800}'), 3);
    assert_eq!(replay_stream::text::width('\u{ffff}'), 3);
    assert_eq!(replay_stream::text::width('\u{10000}'), 4);
    assert_eq!(replay_stream::text::width('\u{10ffff}'), 4);
    for c in ['a', '\u{e9}', '\u{20ac}', '\u{1f600}'] {
        assert_eq!(replay_stream::text::width(c), c.len_utf8());
    }
}

#[test]
fn zero_span_at_the_start_takes_entry_zero_for_the_one_before() {
    let mut stream: TextStream = Stream::from("ab");
    assert_eq!(stream.zero_span(), Some(1)..Some(0));
    assert_eq!(stream.offset(), 0);
}

#[test]
fn zero_span_between_items() {
    let mut stream: TextStream = Stream::from("ab");
    stream.next();
    assert_eq!(stream.zero_span(), Some(1)..Some(1));
    assert_eq!(stream.offset(), 1);
}

#[test]
fn zero_span_at_the_end() {
    let mut stream: TextStream = Stream::from("ab");
    stream.next();
    stream.next();
    assert_eq!(stream.zero_span(), Some(2)..None);
    stream.next();
    assert_eq!(stream.zero_span(), Some(2)..None);
    assert_eq!(stream.offset(), 2);
}

#[test]
fn zero_span_past_the_end() {
    let mut stream: TextStream = Stream::from("ab");
    stream.revert(4);
    assert_eq!(stream.zero_span(), None..None);
    assert_eq!(stream.offset(), 4);
}

#[test]
fn pull_until_hands_out_the_entry() {
    let mut stream: TextStream = Stream::from("abc");
    assert_eq!(stream.pull_until(2), &Some(('c', at(2))));
    assert_eq!(stream.pull_until(0), &Some(('a', at(0))));
    assert_eq!(stream.pull_until(3), &None);
    assert_eq!(stream.pull_until(7), &None);
    assert_eq!(stream.offset(), 0);
    assert_eq!(stream.next(), (0, at(0), Some('a')));
}

#[test]
fn revert_sets_any_mark_exactly() {
    let mut stream: TextStream = Stream::from("ab");
    stream.revert(5);
    assert_eq!(stream.offset(), 5);
    assert_eq!(stream.next(), (5, None..None, None));
    assert_eq!(stream.offset(), 5);
    stream.revert(0);
    assert_eq!(stream.next(), (0, at(0), Some('a')));
}

#[test]
fn attempt_without_commit_puts_the_offset_back() {
    let mut stream: TextStream = Stream::from("abcd");
    stream.next();
    let seen = stream.attempt(|inner| {
        let first = inner.next();
        let second = inner.next();
        let third = inner.next();
        (false, (first.2, second.2, third.2))
    });
    assert_eq!(seen, (Some('b'), Some('c'), Some('d')));
    assert_eq!(stream.offset(), 1);
    assert_eq!(stream.next(), (1, at(1), Some('b')));
}

#[test]
fn attempt_with_commit_keeps_the_offset() {
    let mut stream: TextStream = Stream::from("abcd");
    let seen = stream.attempt(|inner| {
        inner.next();
        (true, inner.next().2)
    });
    assert_eq!(seen, Some('b'));
    assert_eq!(stream.offset(), 2);
    assert_eq!(stream.next(), (2, at(2), Some('c')));
}

#[test]
fn attempts_nest() {
    let mut stream: TextStream = Stream::from("abc");
    let out = stream.attempt(|outer| {
        outer.next();
        let inner_out = outer.attempt(|inner| {
            inner.next();
            (false, inner.offset())
        });
        (true, (inner_out, outer.offset()))
    });
    assert_eq!(out, (2, 1));
    assert_eq!(stream.offset(), 1);
}

#[test]
fn try_parse_keeps_a_success() {
    let mut stream: TextStream = Stream::from("ab");
    let out = stream.try_parse(|inner| match inner.next().2 {
        Some('a') => ((), Ok('a')),
        other => ((), Err(other)),
    });
    assert_eq!(out, ((), Ok('a')));
    assert_eq!(stream.offset(), 1);
}

#[test]
fn try_parse_takes_back_a_failure() {
    let mut stream: TextStream = Stream::from("ab");
    let out: (Vec<u8>, Result<char, Option<char>>) = stream.try_parse(|inner| {
        inner.next();
        match inner.next().2 {
            Some('x') => (vec![], Ok('x')),
            other => (vec![7], Err(other)),
        }
    });
    assert_eq!(out, (vec![7], Err(Some('b'))));
    assert_eq!(stream.offset(), 0);
    assert_eq!(stream.next(), (0, at(0), Some('a')));
}

fn digit(inner: &mut TextStream) -> (u8, Result<u32, String>) {
    match inner.next() {
        (_, _, Some(c)) if c.is_ascii_digit() => (1, Ok(c.to_digit(10).unwrap())),
        (position, _, found) => (2, Err(format!("no digit at {}: {:?}", position, found))),
    }
}

#[test]
fn try_parse_does_what_attempt_does_with_success_as_flag() {
    for text in ["7x", "x7", "", "42"] {
        let mut tried: TextStream = Stream::from(text);
        let mut attempted: TextStream = Stream::from(text);
        for _ in 0..3 {
            let by_try = tried.try_parse(digit);
            let by_attempt = attempted.attempt(|inner| {
                let out = digit(inner);
                (out.1.is_ok(), out)
            });
            assert_eq!(by_try, by_attempt);
            assert_eq!(tried.offset(), attempted.offset());
        }
    }
}

#[test]
fn ordered_choice_starts_each_branch_at_the_same_place() {
    let mut stream: TextStream = Stream::from("ab");
    let first: ((), Result<char, ()>) = stream.try_parse(|inner| {
        match (inner.next().2, inner.next().2) {
            (Some('a'), Some('c')) => ((), Ok('c')),
            _ => ((), Err(())),
        }
    });
    assert_eq!(first, ((), Err(())));
    let second: ((), Result<char, ()>) = stream.try_parse(|inner| {
        match (inner.next().2, inner.next().2) {
            (Some('a'), Some('b')) => ((), Ok('b')),
            _ => ((), Err(())),
        }
    });
    assert_eq!(second, ((), Ok('b')));
    assert_eq!(stream.offset(), 2);
}

#[test]
fn a_slice_is_read_by_index() {
    let words = [String::from("let"), String::from("x"), String::from("=")];
    let mut stream: Stream<String, Range<Option<usize>>, Items<String>> = Stream::from(&words[..]);
    assert_eq!(stream.next(), (0, at(0), Some(String::from("let"))));
    assert_eq!(stream.zero_span(), Some(1)..Some(1));
    assert_eq!(stream.next(), (1, at(1), Some(String::from("x"))));
    assert_eq!(stream.next(), (2, at(2), Some(String::from("="))));
    assert_eq!(stream.next(), (3, None..None, None));
    stream.revert(1);
    assert_eq!(stream.next(), (1, at(1), Some(String::from("x"))));
    assert_eq!(words[1], "x");
}

#[test]
fn an_empty_slice_is_exhausted_at_once() {
    let nothing: [u8; 0] = [];
    let mut stream: Stream<u8, Range<Option<usize>>, Items<u8>> = Stream::from(&nothing[..]);
    assert_eq!(stream.next(), (0, None..None, None));
    assert_eq!(stream.zero_span(), None..None);
}

#[test]
fn a_spanned_slice_keeps_its_locations() {
    let tokens = [("if", Some(0)..Some(2)), ("x", Some(3)..Some(4)), ("{", Some(5)..Some(6))];
    let mut stream: Stream<&str, Range<Option<usize>>, Spanned<&str, Range<Option<usize>>>> =
        Stream::from(&tokens[..]);
    assert_eq!(stream.zero_span(), Some(2)..Some(0));
    assert_eq!(stream.next(), (0, Some(0)..Some(2), Some("if")));
    assert_eq!(stream.zero_span(), Some(2)..Some(3));
    assert_eq!(stream.next(), (1, Some(3)..Some(4), Some("x")));
    assert_eq!(stream.zero_span(), Some(4)..Some(5));
    assert_eq!(stream.next(), (2, Some(5)..Some(6), Some("{")));
    assert_eq!(stream.zero_span(), Some(6)..None);
    assert_eq!(stream.next(), (3, None..None, None));
}

#[test]
fn a_spanned_slice_may_leave_bounds_open() {
    let tokens = [('a', None..Some(4)), ('b', Some(4)..None)];
    let mut stream: Stream<char, Range<Option<usize>>, Spanned<char, Range<Option<usize>>>> =
        Stream::from(&tokens[..]);
    assert_eq!(stream.zero_span(), Some(4)..None);
    stream.next();
    assert_eq!(stream.zero_span(), Some(4)..Some(4));
    stream.next();
    assert_eq!(stream.zero_span(), None..None);
}

#[test]
fn try_parse_nests() {
    let mut stream: TextStream = Stream::from("abc");
    let out: ((), Result<(char, Option<char>), ()>) = stream.try_parse(|outer| {
        let first = outer.next().2;
        let second: ((), Result<char, ()>) = outer.try_parse(|inner| match inner.next().2 {
            Some('x') => ((), Ok('x')),
            _ => ((), Err(())),
        });
        match first {
            Some(c) => ((), Ok((c, second.1.ok()))),
            None => ((), Err(())),
        }
    });
    assert_eq!(out, ((), Ok(('a', None))));
    assert_eq!(stream.offset(), 1);
}

#[test]
fn the_input_needs_no_annotation() {
    let mut stream = Stream::from("a");
    assert_eq!(stream.next(), (0, Some(0)..Some(1), Some('a')));
    let numbers = [4u8, 5];
    let mut stream = Stream::from(&numbers[..]);
    assert_eq!(stream.next(), (0, Some(0)..Some(1), Some(4)));
    assert_eq!(stream.next(), (1, Some(1)..Some(2), Some(5)));
}
