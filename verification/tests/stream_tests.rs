use jellyfin_client::stream::ByteStream;
use jellyfin_client::stream::StreamState;

#[test]
fn stream_chunks_kept_in_arrival_order() {
    let mut s = ByteStream::open(200);
    assert_eq!(s.state, StreamState::Receiving);
    s.push_chunk(b"ab".to_vec());
    s.push_chunk(b"cd".to_vec());
    s.push_chunk(b"ef".to_vec());
    s.finish();
    assert_eq!(s.state, StreamState::Exhausted);
    assert_eq!(s.chunk_count(), 3);
    assert_eq!(s.chunks[0], b"ab".to_vec());
    assert_eq!(s.chunks[1], b"cd".to_vec());
    assert_eq!(s.chunks[2], b"ef".to_vec());
    let all = s.assembled();
    assert_eq!(all, b"abcdef".to_vec());
    assert_eq!(all.len(), 6);
}

#[test]
fn stream_500_opens_empty_and_exhausted() {
    let s = ByteStream::open(500);
    assert_eq!(s.state, StreamState::Exhausted);
    assert_eq!(s.chunk_count(), 0);
    assert!(s.assembled().is_empty());
}

#[test]
fn stream_404_opens_empty_and_exhausted() {
    let s = ByteStream::open(404);
    assert_eq!(s.state, StreamState::Exhausted);
    assert_eq!(s.chunk_count(), 0);
}

#[test]
fn stream_failure_truncates_with_terminal_mark() {
    let mut s = ByteStream::open(200);
    s.push_chunk(b"ab".to_vec());
    s.fail();
    assert_eq!(s.state, StreamState::Failed);
    assert_eq!(s.assembled(), b"ab".to_vec());
}

#[test]
fn stream_cancel_is_terminal_and_keeps_received_chunks() {
    let mut s = ByteStream::open(200);
    s.push_chunk(b"ab".to_vec());
    s.cancel();
    assert_eq!(s.state, StreamState::Cancelled);
    assert_eq!(s.chunk_count(), 1);
    assert_eq!(s.assembled(), b"ab".to_vec());
}

#[test]
fn stream_empty_chunks_do_not_add_bytes() {
    let mut s = ByteStream::open(200);
    s.push_chunk(Vec::new());
    s.push_chunk(b"xy".to_vec());
    s.push_chunk(Vec::new());
    s.finish();
    assert_eq!(s.chunk_count(), 3);
    assert_eq!(s.assembled(), b"xy".to_vec());
}
