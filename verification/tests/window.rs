use chunkstream::cursor::ByteCursor;
use chunkstream::views::ReadOnlyWindow;
use chunkstream::views::WriteOnlyWindow;
use chunkstream::SeekFrom;
use chunkstream::Stream;
use chunkstream::StreamError;

#[test]
fn new_stream() {
    let data = vec![0u8; 10];
    let cursor = ByteCursor::new(data);
    let stream = Stream::new(&cursor);
    assert_eq!(stream.origin_pos, 0);
    assert_eq!(stream.limit_pos, u64::MAX);
    assert_eq!(cursor.stream_position(), 0);
}

#[test]
fn borrow_chunk_without_offset() {
    let data = vec![0u8; 10];
    let cursor = ByteCursor::new(data);
    let stream = Stream::new(&cursor);
    let chunk = stream.borrow_chunk(&cursor, None).unwrap();
    assert_eq!(chunk.origin_pos, 0);
}

#[test]
fn borrow_chunk_with_offset() {
    let data = vec![0u8; 10];
    let mut cursor = ByteCursor::new(data);
    let stream = Stream::new(&cursor);
    let _ = stream.seek(&mut cursor, SeekFrom::Start(1));
    let chunk = stream.borrow_chunk(&cursor, None).unwrap();
    assert_eq!(chunk.origin_pos, 1);
}

#[test]
fn borrow_chunk_without_limit() {
    let data = vec![0u8; 10];
    let cursor = ByteCursor::new(data);
    let stream = Stream::new(&cursor);
    let chunk = stream.borrow_chunk(&cursor, None).unwrap();
    assert_eq!(chunk.limit_pos, u64::MAX);
}

#[test]
fn borrow_chunk_with_under_stream_limit() {
    let data = vec![0u8; 10];
    let cursor = ByteCursor::new(data);
    let stream = Stream::new(&cursor);
    let chunk = stream.borrow_chunk(&cursor, Some(11)).unwrap();
    assert_eq!(chunk.limit_pos, 11);
}

#[test]
fn borrow_chunk_with_over_stream_limit() {
    let data = vec![0u8; 10];
    let cursor = ByteCursor::new(data);
    let stream_foo = Stream::new(&cursor);
    let stream_bar = stream_foo.borrow_chunk(&cursor, Some(10)).unwrap();
    let chunk = stream_bar.borrow_chunk(&cursor, Some(11)).unwrap();
    assert_eq!(chunk.limit_pos, 10);
}

#[test]
fn remainder_len_with_limit_over_stream_len() {
    let data = vec![0u8; 10];
    let mut cursor = ByteCursor::new(data);
    let stream = Stream::new(&cursor);
    assert_eq!(stream.remainder_len(&cursor).unwrap(), 10);
    let _ = stream.seek(&mut cursor, SeekFrom::Current(1));
    assert_eq!(stream.remainder_len(&cursor).unwrap(), 9);
}

#[test]
fn remainder_len_with_limit_under_stream_len() {
    let data = vec![0u8; 10];
    let cursor = ByteCursor::new(data);
    let stream = Stream::new(&cursor);
    let chunk = stream.borrow_chunk(&cursor, Some(9)).unwrap();
    assert_eq!(chunk.remainder_len(&cursor).unwrap(), 9);
}

#[test]
fn remainder_len_with_stream_position_over_limit() {
    let data = vec![0u8; 10];
    let mut cursor = ByteCursor::new(data);
    let stream = Stream::new(&cursor);
    let chunk = stream.borrow_chunk(&cursor, Some(9)).unwrap();
    let _ = cursor.seek(SeekFrom::End(0));
    assert_eq!(chunk.remainder_len(&cursor).unwrap(), 0);
}

#[test]
fn seek_from_current() {
    let data = vec![0u8; 10];
    let mut cursor = ByteCursor::new(data);
    let stream = Stream::new(&cursor);
    let seek_result = stream.seek(&mut cursor, SeekFrom::Current(10));
    assert_eq!(seek_result.ok(), Some(10));
    let _ = stream.seek(&mut cursor, SeekFrom::Start(1));
    let chunk = stream.borrow_chunk(&cursor, Some(9)).unwrap();
    let seek_result = chunk.seek(&mut cursor, SeekFrom::Current(9));
    assert_eq!(seek_result.ok(), Some(9));
}

#[test]
fn seek_from_current_when_overflow() {
    let data = vec![0u8; 10];
    let mut cursor = ByteCursor::new(data);
    let stream = Stream::new(&cursor);
    let seek_result = stream.seek(&mut cursor, SeekFrom::Current(11));
    assert!(seek_result.is_err());
    let _ = stream.seek(&mut cursor, SeekFrom::Start(1));
    let chunk = stream.borrow_chunk(&cursor, Some(9)).unwrap();
    let seek_result = chunk.seek(&mut cursor, SeekFrom::Current(10));
    assert!(seek_result.is_err());
}

#[test]
fn seek_from_current_when_underflow() {
    let data = vec![0u8; 10];
    let mut cursor = ByteCursor::new(data);
    let stream = Stream::new(&cursor);
    let seek_result = stream.seek(&mut cursor, SeekFrom::Current(-1));
    assert!(seek_result.is_err());
    let _ = stream.seek(&mut cursor, SeekFrom::Start(1));
    let chunk = stream.borrow_chunk(&cursor, Some(9)).unwrap();
    let seek_result = chunk.seek(&mut cursor, SeekFrom::Current(-1));
    assert!(seek_result.is_err());
}

#[test]
fn seek_from_end() {
    let data = vec![0u8; 10];
    let mut cursor = ByteCursor::new(data);
    let stream = Stream::new(&cursor);
    let seek_result = stream.seek(&mut cursor, SeekFrom::End(-10));
    assert_eq!(seek_result.ok(), Some(0));
    let _ = stream.seek(&mut cursor, SeekFrom::Start(1));
    let chunk = stream.borrow_chunk(&cursor, Some(9)).unwrap();
    let seek_result = chunk.seek(&mut cursor, SeekFrom::End(-9));
    assert_eq!(seek_result.ok(), Some(0));
}

#[test]
fn seek_from_end_when_overflow() {
    let data = vec![0u8; 10];
    let mut cursor = ByteCursor::new(data);
    let stream = Stream::new(&cursor);
    let seek_result = stream.seek(&mut cursor, SeekFrom::End(-11));
    assert!(seek_result.is_err());
    let _ = stream.seek(&mut cursor, SeekFrom::Start(1));
    let chunk = stream.borrow_chunk(&cursor, Some(9)).unwrap();
    let seek_result = chunk.seek(&mut cursor, SeekFrom::End(-10));
    assert!(seek_result.is_err());
}

#[test]
fn seek_from_end_when_underflow() {
    let data = vec![0u8; 10];
    let mut cursor = ByteCursor::new(data);
    let stream = Stream::new(&cursor);
    let seek_result = stream.seek(&mut cursor, SeekFrom::End(1));
    assert!(seek_result.is_err());
    let _ = stream.seek(&mut cursor, SeekFrom::Start(1));
    let chunk = stream.borrow_chunk(&cursor, Some(9)).unwrap();
    let seek_result = chunk.seek(&mut cursor, SeekFrom::End(1));
    assert!(seek_result.is_err());
}

#[test]
fn seek_from_start() {
    let data = vec![0u8; 10];
    let mut cursor = ByteCursor::new(data);
    let stream = Stream::new(&cursor);
    let seek_result = stream.seek(&mut cursor, SeekFrom::Start(10));
    assert_eq!(seek_result.ok(), Some(10));
    let _ = stream.seek(&mut cursor, SeekFrom::Start(1));
    let chunk = stream.borrow_chunk(&cursor, Some(9)).unwrap();
    let seek_result = chunk.seek(&mut cursor, SeekFrom::Start(9));
    assert_eq!(seek_result.ok(), Some(9));
}

#[test]
fn seek_from_start_when_overflow() {
    let data = vec![0u8; 10];
    let mut cursor = ByteCursor::new(data);
    let stream = Stream::new(&cursor);
    let seek_result = stream.seek(&mut cursor, SeekFrom::Start(11));
    assert!(seek_result.is_err());
    let _ = stream.seek(&mut cursor, SeekFrom::Start(1));
    let chunk = stream.borrow_chunk(&cursor, Some(10)).unwrap();
    let seek_result = chunk.seek(&mut cursor, SeekFrom::Start(10));
    assert!(seek_result.is_err());
}

#[test]
fn limit_beyond_extent_is_clamped() {
    let data = vec![0u8; 10];
    let mut cursor = ByteCursor::new(data);
    let stream = Stream::new(&cursor);
    let chunk = stream.borrow_chunk(&cursor, Some(11)).unwrap();
    assert_eq!(chunk.remainder_len(&cursor).unwrap(), 10);
    assert!(chunk.seek(&mut cursor, SeekFrom::Start(10)).is_ok());
    assert_eq!(
        chunk.seek(&mut cursor, SeekFrom::Start(11)),
        Err(StreamError::InvalidSeek)
    );
}

#[test]
fn nested_slice_never_widens() {
    let data = vec![0u8; 10];
    let mut cursor = ByteCursor::new(data);
    let stream = Stream::new(&cursor);
    let outer = stream.borrow_chunk(&cursor, Some(5)).unwrap();
    let inner = outer.borrow_chunk(&cursor, Some(11)).unwrap();
    assert_eq!(inner.limit_pos, 5);
    assert_eq!(inner.seek(&mut cursor, SeekFrom::Start(5)).ok(), Some(5));
    assert!(inner.seek(&mut cursor, SeekFrom::Start(6)).is_err());
}

#[test]
fn read_clamps_to_limit_and_leaves_rest() {
    let data = vec![0u8; 10];
    let mut cursor = ByteCursor::new(data);
    let stream = Stream::new(&cursor);
    let chunk = stream.borrow_chunk(&cursor, Some(5)).unwrap();
    let mut buf = vec![7u8; 10];
    let n = chunk.read(&mut cursor, &mut buf);
    assert_eq!(n, 5);
    assert_eq!(buf, vec![0, 0, 0, 0, 0, 7, 7, 7, 7, 7]);
    assert_eq!(cursor.stream_position(), 5);
    let n2 = chunk.read(&mut cursor, &mut buf);
    assert_eq!(n2, 0);
}

#[test]
fn wrap_leaves_position_unchanged() {
    let data = vec![0u8; 10];
    let cursor = ByteCursor::new(data);
    let before = cursor.stream_position();
    let stream = Stream::new(&cursor);
    let view = stream.to_read_only();
    let handed_back: Stream = view.unwrap();
    assert_eq!(handed_back, stream);
    assert_eq!(cursor.stream_position(), before);
}

#[test]
fn slice_after_seek_scenario() {
    let data = vec![0u8; 10];
    let mut cursor = ByteCursor::new(data);
    let stream = Stream::new(&cursor);
    let _ = stream.seek(&mut cursor, SeekFrom::Start(1));
    let slice = stream.borrow_chunk(&cursor, Some(9)).unwrap();
    assert_eq!(slice.remainder_len(&cursor).unwrap(), 9);
    assert_eq!(slice.seek(&mut cursor, SeekFrom::Start(9)).ok(), Some(9));
    assert!(slice.seek(&mut cursor, SeekFrom::Start(10)).is_err());
}

#[test]
fn write_clamps_to_limit() {
    let data = vec![0u8; 10];
    let mut cursor = ByteCursor::new(data);
    let stream = Stream::new(&cursor);
    let chunk = stream.borrow_chunk(&cursor, Some(4)).unwrap();
    let payload = vec![1u8, 2, 3, 4, 5, 6];
    let n = chunk.write(&mut cursor, &payload);
    assert_eq!(n, 4);
    assert_eq!(cursor.stream_position(), 4);
    assert_eq!(cursor.into_inner(), vec![1, 2, 3, 4, 0, 0, 0, 0, 0, 0]);
}

#[test]
fn write_stops_at_extent() {
    let data = vec![0u8; 3];
    let mut cursor = ByteCursor::new(data);
    let stream = Stream::new(&cursor);
    let payload = vec![9u8; 5];
    let n = stream.write(&mut cursor, &payload);
    assert_eq!(n, 3);
    assert_eq!(cursor.into_inner(), vec![9, 9, 9]);
}

#[test]
fn read_only_view_reads_and_seeks() {
    let data = vec![1u8, 2, 3, 4];
    let mut cursor = ByteCursor::new(data);
    let view: ReadOnlyWindow = Stream::new(&cursor).to_read_only();
    assert_eq!(view.seek(&mut cursor, SeekFrom::Start(1)).ok(), Some(1));
    let mut buf = vec![0u8; 2];
    assert_eq!(view.read(&mut cursor, &mut buf), 2);
    assert_eq!(buf, vec![2, 3]);
}

#[test]
fn write_only_view_writes_and_seeks() {
    let data = vec![0u8; 4];
    let mut cursor = ByteCursor::new(data);
    let view: WriteOnlyWindow = Stream::new(&cursor).to_write_only();
    assert_eq!(view.seek(&mut cursor, SeekFrom::Start(2)).ok(), Some(2));
    let payload = vec![5u8, 6];
    assert_eq!(view.write(&mut cursor, &payload), 2);
    view.flush(&mut cursor);
    assert_eq!(cursor.into_inner(), vec![0, 0, 5, 6]);
}

#[test]
fn read_exact_short_input_is_an_error() {
    let data = vec![1u8, 2];
    let mut cursor = ByteCursor::new(data);
    let stream = Stream::new(&cursor);
    assert_eq!(
        stream.read_exact(&mut cursor, 3),
        Err(StreamError::UnexpectedEof)
    );
    let _ = stream.seek(&mut cursor, SeekFrom::Start(0));
    assert_eq!(stream.read_exact(&mut cursor, 2), Ok(vec![1u8, 2]));
}

#[test]
fn failed_seek_leaves_cursor_in_place() {
    let data = vec![0u8; 10];
    let mut cursor = ByteCursor::new(data);
    let stream = Stream::new(&cursor);
    let _ = stream.seek(&mut cursor, SeekFrom::Start(4));
    assert_eq!(
        stream.seek(&mut cursor, SeekFrom::Start(11)),
        Err(StreamError::InvalidSeek)
    );
    assert_eq!(cursor.stream_position(), 4);
}
