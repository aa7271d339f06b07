use pty_session::buffer::SharedBuffer;
use pty_session::input::{forward_bytes, key_sequence, Key, KeyState};
use pty_session::reader::{next_action, ReadOutcome, ReaderAction, BACKOFF_MS, READ_CHUNK_SIZE};
use pty_session::session::{TermSize, DEFAULT_COLS, DEFAULT_ROWS, SHELL_PATH};

/// Runs the reader's decisions over a run of read attempts, appending as it
/// is told; returns the total pause in milliseconds.
fn run_reader(buffer: &mut SharedBuffer, outcomes: Vec<ReadOutcome>) -> u64 {
    let mut paused = 0u64;
    for o in outcomes {
        match next_action(o) {
            ReaderAction::Append(chunk) => buffer.append(&chunk),
            ReaderAction::Sleep(ms) => paused += ms,
        }
    }
    paused
}

#[test]
fn enter_press_writes_newline() {
    assert_eq!(forward_bytes(Key::Return, KeyState::Pressed), vec![0x0Au8]);
}

#[test]
fn enter_release_writes_nothing() {
    assert!(forward_bytes(Key::Return, KeyState::Released).is_empty());
}

#[test]
fn each_press_writes_once() {
    let mut written: Vec<u8> = Vec::new();
    let events = [
        (Key::Return, KeyState::Pressed),
        (Key::Return, KeyState::Released),
        (Key::Return, KeyState::Pressed),
        (Key::Return, KeyState::Released),
    ];
    for (k, s) in events {
        written.extend(forward_bytes(k, s));
    }
    assert_eq!(written, vec![0x0Au8, 0x0A]);
}

#[test]
fn mapped_keys_bytes() {
    assert_eq!(forward_bytes(Key::Back, KeyState::Pressed), vec![0x08u8]);
    assert_eq!(forward_bytes(Key::Escape, KeyState::Pressed), vec![0x1Bu8]);
    assert_eq!(forward_bytes(Key::Space, KeyState::Pressed), vec![0x20u8]);
    assert_eq!(key_sequence(Key::Space), Some(vec![b' ']));
    assert_eq!(key_sequence(Key::Return), Some(vec![b'\n']));
}

#[test]
fn unmapped_key_writes_nothing() {
    assert!(forward_bytes(Key::Unmapped, KeyState::Pressed).is_empty());
    assert!(forward_bytes(Key::Unmapped, KeyState::Released).is_empty());
    assert_eq!(key_sequence(Key::Unmapped), None);
}

#[test]
fn new_buffer_is_empty() {
    let b = SharedBuffer::new();
    assert_eq!(b.len(), 0);
    assert!(b.snapshot().is_empty());
}

#[test]
fn snapshot_twice_is_identical() {
    let mut b = SharedBuffer::new();
    b.append(b"hello ");
    b.append(b"world");
    let s1 = b.snapshot();
    let s2 = b.snapshot();
    assert_eq!(s1, s2);
    assert_eq!(s1, b"hello world".to_vec());
}

#[test]
fn appends_keep_order() {
    let mut b = SharedBuffer::new();
    b.append(b"ab");
    b.append(b"");
    b.append(b"cd");
    b.append(b"e");
    assert_eq!(b.snapshot(), b"abcde".to_vec());
    assert_eq!(b.len(), 5);
}

#[test]
fn snapshots_hold_whole_chunks() {
    let chunks: Vec<Vec<u8>> = vec![b"<one>".to_vec(), b"<two>".to_vec(), b"<three>".to_vec()];
    let mut b = SharedBuffer::new();
    let mut seen: Vec<Vec<u8>> = vec![b.snapshot()];
    for c in &chunks {
        b.append(c);
        seen.push(b.snapshot());
    }
    for (k, s) in seen.iter().enumerate() {
        assert_eq!(*s, chunks[..k].concat());
    }
}

#[test]
fn data_is_appended_in_full() {
    let data = vec![7u8; READ_CHUNK_SIZE];
    assert_eq!(next_action(ReadOutcome::Data(data.clone())), ReaderAction::Append(data));
}

#[test]
fn empty_read_backs_off() {
    assert_eq!(next_action(ReadOutcome::Data(Vec::new())), ReaderAction::Sleep(10));
    assert_eq!(next_action(ReadOutcome::Failed), ReaderAction::Sleep(BACKOFF_MS));
}

#[test]
fn reader_keeps_order_of_reads() {
    let mut b = SharedBuffer::new();
    let outcomes = vec![
        ReadOutcome::Data(b"$ ".to_vec()),
        ReadOutcome::Failed,
        ReadOutcome::Data(b"echo".to_vec()),
        ReadOutcome::Data(Vec::new()),
        ReadOutcome::Data(b" hi\r\nhi\r\n".to_vec()),
    ];
    let paused = run_reader(&mut b, outcomes);
    assert_eq!(b.snapshot(), b"$ echo hi\r\nhi\r\n".to_vec());
    assert_eq!(paused, 20);
}

#[test]
fn idle_reader_makes_one_attempt_per_interval() {
    let mut b = SharedBuffer::new();
    let mut attempts = 0u64;
    let mut elapsed = 0u64;
    while elapsed < 100 {
        attempts += 1;
        match next_action(ReadOutcome::Failed) {
            ReaderAction::Append(chunk) => b.append(&chunk),
            ReaderAction::Sleep(ms) => elapsed += ms,
        }
    }
    assert!(attempts <= 10);
    assert_eq!(b.len(), 0);
}

#[test]
fn default_term_size() {
    let s = TermSize::default();
    assert_eq!((s.rows, s.cols), (24, 80));
    assert_eq!((DEFAULT_ROWS, DEFAULT_COLS), (24, 80));
    assert_eq!(TermSize::new(50, 132), TermSize { rows: 50, cols: 132 });
    assert_eq!(SHELL_PATH, "/bin/bash");
}
