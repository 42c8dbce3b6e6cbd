use dyson::bridge::{write_outcome, SinkBridge};
use std::cell::RefCell;
use std::fmt::{Display, Formatter};
use std::io::{ErrorKind, Write};

/// Feeds its chunks through a bridge into the formatter it is shown to, and
/// keeps what the bridge answered for each.
struct Feed<'a> {
    chunks: Vec<&'a [u8]>,
    answers: RefCell<Vec<Result<usize, ErrorKind>>>,
}

impl<'a> Feed<'a> {
    fn new(chunks: Vec<&'a [u8]>) -> Self {
        Feed { chunks, answers: RefCell::new(Vec::new()) }
    }

    fn run(&self) -> (String, Vec<Result<usize, ErrorKind>>) {
        let text = self.to_string();
        (text, self.answers.borrow().clone())
    }
}

impl Display for Feed<'_> {
    fn fmt(&self, fmt: &mut Formatter<'_>) -> std::fmt::Result {
        let mut bridge = SinkBridge { dest: fmt };
        for chunk in &self.chunks {
            let answer = bridge.write(chunk).map_err(|failure| failure.kind());
            self.answers.borrow_mut().push(answer);
        }
        Ok(())
    }
}

fn cut(bytes: &[u8], size: usize) -> Vec<&[u8]> {
    bytes.chunks(size).collect()
}

#[test]
fn a_chunk_of_text_is_consumed_whole() {
    let (text, answers) = Feed::new(vec![b"[1,2]"]).run();
    assert_eq!(text, "[1,2]");
    assert_eq!(answers, vec![Ok(5)]);
}

#[test]
fn consumed_counts_bytes_not_characters() {
    let chunk = "h\u{e9}llo \u{1f600}".as_bytes();
    let (text, answers) = Feed::new(vec![chunk]).run();
    assert_eq!(text, "h\u{e9}llo \u{1f600}");
    assert_eq!(answers, vec![Ok(11)]);
}

#[test]
fn an_empty_chunk_adds_nothing() {
    let (text, answers) = Feed::new(vec![b"a", b"", b"b"]).run();
    assert_eq!(text, "ab");
    assert_eq!(answers, vec![Ok(1), Ok(0), Ok(1)]);
}

#[test]
fn chunks_arrive_in_order_after_earlier_text() {
    let feed = Feed::new(vec![b"{\"k\":", b"[", b"1", b",", b"2", b"]", b"}"]);
    let line = format!("<{}>", feed);
    assert_eq!(line, "<{\"k\":[1,2]}>");
    assert_eq!(feed.answers.borrow().len(), 7);
    assert!(feed.answers.borrow().iter().all(|answer| answer.is_ok()));
}

#[test]
fn chunking_does_not_change_the_text() {
    let bytes = b"{\"name\":\"bridge\",\"sizes\":[1,20,300],\"nested\":{\"ok\":true,\"none\":null}}";
    let (whole, _) = Feed::new(vec![bytes]).run();
    assert_eq!(whole.as_bytes(), bytes);
    for size in [1, 2, 3, 7, 16, 64, 1000] {
        let (text, answers) = Feed::new(cut(bytes, size)).run();
        assert_eq!(text, whole);
        assert_eq!(answers.iter().map(|answer| *answer.as_ref().unwrap()).sum::<usize>(), bytes.len());
    }
}

#[test]
fn chunking_at_character_boundaries_does_not_change_the_text() {
    let text = "\"h\u{e9}llo \u{4e16}\u{754c} \u{1f600}!\"";
    let (whole, _) = Feed::new(vec![text.as_bytes()]).run();
    assert_eq!(whole, text);

    let mut pieces: Vec<&[u8]> = Vec::new();
    let mut start = 0;
    for (index, _) in text.char_indices().skip(1) {
        pieces.push(&text.as_bytes()[start..index]);
        start = index;
    }
    pieces.push(&text.as_bytes()[start..]);
    assert_eq!(pieces.len(), text.chars().count());

    let (by_character, answers) = Feed::new(pieces).run();
    assert_eq!(by_character, whole);
    assert!(answers.iter().all(|answer| answer.is_ok()));
}

#[test]
fn a_chunk_that_is_no_text_is_refused() {
    let (text, answers) = Feed::new(vec![b"ok", &[0xff, 0xfe], b"!"]).run();
    assert_eq!(text, "ok!");
    assert_eq!(answers, vec![Ok(2), Err(ErrorKind::Other), Ok(1)]);
}

#[test]
fn a_character_cut_in_two_is_refused() {
    let bytes = "\u{e9}".as_bytes();
    assert_eq!(bytes, [0xc3, 0xa9]);
    let (text, answers) = Feed::new(vec![&bytes[..1], &bytes[1..]]).run();
    assert_eq!(text, "");
    assert_eq!(answers, vec![Err(ErrorKind::Other), Err(ErrorKind::Other)]);

    let (text, answers) = Feed::new(vec![bytes]).run();
    assert_eq!(text, "\u{e9}");
    assert_eq!(answers, vec![Ok(2)]);
}

#[test]
fn encodings_that_are_no_utf8_are_refused() {
    let overlong: &[u8] = &[0xc0, 0xaf];
    let surrogate: &[u8] = &[0xed, 0xa0, 0x80];
    let too_large: &[u8] = &[0xf4, 0x90, 0x80, 0x80];
    let cut_short: &[u8] = &[b'a', 0xe4, 0xb8];
    let (text, answers) = Feed::new(vec![overlong, surrogate, too_large, cut_short]).run();
    assert_eq!(text, "");
    assert_eq!(answers, vec![Err(ErrorKind::Other); 4]);
}

#[test]
fn flush_succeeds_and_writes_nothing() {
    struct Flushing;
    impl Display for Flushing {
        fn fmt(&self, fmt: &mut Formatter<'_>) -> std::fmt::Result {
            let mut bridge = SinkBridge { dest: fmt };
            assert!(bridge.flush().is_ok());
            assert_eq!(bridge.write(b"x").unwrap(), 1);
            assert!(bridge.flush().is_ok());
            assert!(bridge.flush().is_ok());
            Ok(())
        }
    }
    assert_eq!(Flushing.to_string(), "x");
}

#[test]
fn the_engine_can_write_through_the_bridge() {
    struct Direct;
    impl Display for Direct {
        fn fmt(&self, fmt: &mut Formatter<'_>) -> std::fmt::Result {
            let bridge = SinkBridge { dest: fmt };
            serde_json::to_writer(bridge, &("a", 1, [true, false])).map_err(|_| std::fmt::Error)
        }
    }
    assert_eq!(Direct.to_string(), "[\"a\",1,[true,false]]");
}

#[test]
fn the_bridge_is_as_wide_as_the_destination_reference() {
    assert_eq!(
        std::mem::size_of::<SinkBridge<'static, 'static>>(),
        std::mem::size_of::<&mut Formatter<'static>>()
    );
}

#[test]
fn write_outcome_reports_the_whole_chunk_on_success() {
    assert_eq!(write_outcome(5, Ok(())).unwrap(), 5);
    assert_eq!(write_outcome(0, Ok(())).unwrap(), 0);
    assert_eq!(write_outcome(usize::MAX, Ok(())).unwrap(), usize::MAX);
}

#[test]
fn write_outcome_reports_a_generic_failure_when_the_destination_refuses() {
    let failure = write_outcome(5, Err(std::fmt::Error)).unwrap_err();
    assert_eq!(failure.kind(), ErrorKind::Other);
    let failure = write_outcome(0, Err(std::fmt::Error)).unwrap_err();
    assert_eq!(failure.kind(), ErrorKind::Other);
}
