use opencode_desktop::log_buffer::{LogBuffer, Stream, MAX_LOG_ENTRIES};

#[test]
fn keeps_most_recent_two_hundred_in_order() {
    let mut buf = LogBuffer::new();
    for i in 0..250 {
        let stream = if i % 2 == 0 { Stream::Stdout } else { Stream::Stderr };
        buf.record(stream, &format!("line {i}\n"));
    }
    let entries = buf.entries();
    assert_eq!(entries.len(), MAX_LOG_ENTRIES);
    assert_eq!(buf.len(), 200);
    for (k, entry) in entries.iter().enumerate() {
        let i = k + 50;
        let tag = if i % 2 == 0 { "[STDOUT] " } else { "[STDERR] " };
        assert_eq!(entry, &format!("{tag}line {i}\n"));
    }
}

#[test]
fn small_capacity_evicts_oldest_first() {
    let mut buf = LogBuffer::with_capacity(2);
    buf.record(Stream::Stdout, "a");
    buf.record(Stream::Stderr, "b");
    buf.record(Stream::Stdout, "c");
    assert_eq!(buf.entries(), vec!["[STDERR] b".to_string(), "[STDOUT] c".to_string()]);
    assert_eq!(buf.capacity(), 2);
}

#[test]
fn under_capacity_keeps_everything() {
    let mut buf = LogBuffer::new();
    buf.record(Stream::Stdout, "ready\n");
    assert_eq!(buf.entries(), vec!["[STDOUT] ready\n".to_string()]);
}

#[test]
fn zero_capacity_keeps_nothing() {
    let mut buf = LogBuffer::with_capacity(0);
    buf.record(Stream::Stdout, "x");
    assert_eq!(buf.len(), 0);
    assert_eq!(buf.contents(), "");
}

#[test]
fn contents_joins_entries_oldest_first() {
    let mut buf = LogBuffer::new();
    assert_eq!(buf.contents(), "");
    buf.record(Stream::Stdout, "one\n");
    buf.record(Stream::Stderr, "two\n");
    assert_eq!(buf.contents(), "[STDOUT] one\n[STDERR] two\n");
}
