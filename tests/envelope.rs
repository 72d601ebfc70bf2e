use wot_replays::envelope::{envelope_bytes_wanted, read_u32_le, DataChunk, RawReplay, ReadError, REPLAY_MAGIC};
use wot_replays::read_raw;
use wot_replays::selection::{chunks_to_show, ShowError};

fn le(v: u32) -> Vec<u8> {
    v.to_le_bytes().to_vec()
}

fn envelope(count: u32, chunks: &[&[u8]], tail: &[u8]) -> Vec<u8> {
    let mut b = vec![0x12, 0x32, 0x34, 0x11];
    b.extend(le(count));
    for c in chunks {
        b.extend(le(c.len() as u32));
        b.extend_from_slice(c);
    }
    b.extend_from_slice(tail);
    b
}

#[test]
fn reads_magic_as_little_endian() {
    assert_eq!(read_u32_le(&[0x12, 0x32, 0x34, 0x11], 0), 0x11343212);
    assert_eq!(read_u32_le(&[0, 1, 0, 0, 0], 1), 1);
    assert_eq!(read_u32_le(&[0xff, 0xfe, 0, 0], 0), 0xfeff);
    assert_eq!(REPLAY_MAGIC, 288633362);
}

#[test]
fn reads_chunks_and_tail() {
    let bytes = envelope(2, &[b"{\"a\":1}", b"[1,2,3]"], &[9, 8, 7]);
    let raw = read_raw(&bytes, false).unwrap();
    assert_eq!(raw.magic, REPLAY_MAGIC);
    assert_eq!(raw.data_chunks, 2);
    assert_eq!(raw.data.len(), 2);
    assert_eq!(raw.data[0].length, 7);
    assert_eq!(raw.data[0].payload, b"{\"a\":1}".to_vec());
    assert_eq!(raw.data[1].payload, b"[1,2,3]".to_vec());
    assert_eq!(raw.replay, vec![9, 8, 7]);
}

#[test]
fn data_only_leaves_tail_empty() {
    let bytes = envelope(1, &[b"xyz"], &[1, 2, 3, 4]);
    let raw = read_raw(&bytes, true).unwrap();
    assert_eq!(raw.data.len(), 1);
    assert_eq!(raw.data[0].payload, b"xyz".to_vec());
    assert!(raw.replay.is_empty());
    let same = RawReplay::read_data_only(&bytes).unwrap();
    assert_eq!(same.data[0].payload, b"xyz".to_vec());
}

#[test]
fn framing_round_trip_reproduces_bytes() {
    let bytes = envelope(3, &[b"first", b"", b"\x00\xff not json"], b"opaque tail");
    let raw = RawReplay::read(&bytes).unwrap();
    let mut out = le(raw.magic);
    out.extend(le(raw.data_chunks));
    for c in &raw.data {
        out.extend(le(c.length));
        out.extend_from_slice(&c.payload);
    }
    out.extend_from_slice(&raw.replay);
    assert_eq!(out, bytes);
}

#[test]
fn arbitrary_bytes_are_valid_chunks() {
    let bytes = envelope(1, &[&[0xff, 0x00, 0x80]], &[]);
    let raw = read_raw(&bytes, false).unwrap();
    assert_eq!(raw.data[0].payload, vec![0xff, 0x00, 0x80]);
}

#[test]
fn wrong_magic_is_invalid_format() {
    let mut bytes = envelope(0, &[], &[]);
    bytes[0] = 0x13;
    assert!(matches!(read_raw(&bytes, false), Err(ReadError::InvalidFormat)));
}

#[test]
fn short_header_is_truncated() {
    assert!(matches!(read_raw(&[0x12, 0x32], false), Err(ReadError::TruncatedInput)));
    assert!(matches!(read_raw(&[0x12, 0x32, 0x34, 0x11, 1], true), Err(ReadError::TruncatedInput)));
    assert!(matches!(read_raw(&[], true), Err(ReadError::TruncatedInput)));
}

#[test]
fn missing_chunks_are_truncated_input() {
    for n in 2..6u32 {
        let bytes = envelope(n, &[b"only one"], &[]);
        assert!(matches!(read_raw(&bytes, true), Err(ReadError::TruncatedInput)));
        assert!(matches!(read_raw(&bytes, false), Err(ReadError::TruncatedInput)));
    }
}

#[test]
fn short_payload_is_truncated_input() {
    let mut bytes = envelope(1, &[b"abcdef"], &[]);
    bytes.pop();
    assert!(matches!(read_raw(&bytes, false), Err(ReadError::TruncatedInput)));
    let half_length = vec![0x12, 0x32, 0x34, 0x11, 1, 0, 0, 0, 5, 0];
    assert!(matches!(read_raw(&half_length, false), Err(ReadError::TruncatedInput)));
}

#[test]
fn reader_keeps_declared_count() {
    for n in 0..4u32 {
        let chunks: Vec<&[u8]> = (0..n).map(|_| &b"c"[..]).collect();
        let raw = read_raw(&envelope(n, &chunks, b"t"), false).unwrap();
        assert_eq!(raw.data.len(), raw.data_chunks as usize);
        assert_eq!(raw.data_chunks, n);
    }
}

#[test]
fn chunk_read_reports_end() {
    let bytes = [0u8, 2, 0, 0, 0, 7, 8, 9];
    let (c, end) = DataChunk::read(&bytes, 1).unwrap();
    assert_eq!(c.length, 2);
    assert_eq!(c.payload, vec![7, 8]);
    assert_eq!(end, 7);
    assert!(matches!(DataChunk::read(&bytes, 6), Err(ReadError::TruncatedInput)));
}

#[test]
fn shows_chunks_as_asked() {
    let raw = read_raw(&envelope(3, &[b"a", b"b", b"c"], &[]), true).unwrap();
    assert_eq!(chunks_to_show(&raw, false, false).unwrap(), vec![0, 1, 2]);
    assert_eq!(chunks_to_show(&raw, true, false).unwrap(), vec![0]);
    assert_eq!(chunks_to_show(&raw, false, true).unwrap(), vec![1]);
    let one = read_raw(&envelope(1, &[b"a"], &[]), true).unwrap();
    assert_eq!(chunks_to_show(&one, false, true), Err(ShowError::NoBattleResults));
    let none = read_raw(&envelope(0, &[], &[]), true).unwrap();
    assert_eq!(chunks_to_show(&none, true, false), Err(ShowError::NoBattleInfo));
    assert_eq!(chunks_to_show(&none, false, false).unwrap(), Vec::<usize>::new());
}

#[test]
fn wanted_bytes_follow_the_fields() {
    let bytes = envelope(2, &[b"abc", b"de"], b"tail");
    assert_eq!(envelope_bytes_wanted(&[]), Ok(4));
    assert_eq!(envelope_bytes_wanted(&bytes[..2]), Ok(2));
    assert_eq!(envelope_bytes_wanted(&bytes[..4]), Ok(4));
    assert_eq!(envelope_bytes_wanted(&bytes[..8]), Ok(4));
    assert_eq!(envelope_bytes_wanted(&bytes[..12]), Ok(3));
    assert_eq!(envelope_bytes_wanted(&bytes[..13]), Ok(2));
    assert_eq!(envelope_bytes_wanted(&bytes[..15]), Ok(4));
    assert_eq!(envelope_bytes_wanted(&bytes[..19]), Ok(2));
    assert_eq!(envelope_bytes_wanted(&bytes[..21]), Ok(0));
    assert_eq!(envelope_bytes_wanted(&bytes), Ok(0));
    assert_eq!(envelope_bytes_wanted(&[0, 0, 0, 0]), Err(ReadError::InvalidFormat));
}

#[test]
fn stepping_by_wanted_bytes_stops_before_tail() {
    let bytes = envelope(3, &[b"one", b"", b"three"], b"the tail");
    let mut prefix: Vec<u8> = Vec::new();
    loop {
        let n = envelope_bytes_wanted(&prefix).unwrap();
        if n == 0 {
            break;
        }
        let start = prefix.len();
        prefix.extend_from_slice(&bytes[start..start + n]);
    }
    assert_eq!(prefix.len(), bytes.len() - b"the tail".len());
    let raw = read_raw(&prefix, true).unwrap();
    assert_eq!(raw.data[2].payload, b"three".to_vec());
}
