use web_codecs::streams::{ChunkKind, ReadAction, Reader, Room, Settled, TypedWriter, WriteAction};
use web_codecs::{Error, HostError};

fn host(text: &str) -> HostError {
    HostError::new(text.to_string())
}

#[test]
fn reader_keeps_the_read_in_flight() {
    let mut reader: Reader<u32> = Reader::new();
    assert!(reader.is_idle());
    assert_eq!(reader.pending(), None);
    assert_eq!(reader.begin(1), None);
    assert!(!reader.is_idle());
    // A second read is refused: the first one stays.
    assert_eq!(reader.begin(2), Some(2));
    assert_eq!(reader.pending(), Some(&mut 1));
}

#[test]
fn reader_pending_can_be_changed_in_place() {
    let mut reader: Reader<u32> = Reader::new();
    reader.begin(1);
    if let Some(read) = reader.pending() {
        *read = 9;
    }
    assert_eq!(reader.pending(), Some(&mut 9));
}

#[test]
fn read_ends_the_read_in_flight_on_an_answer() {
    let mut reader: Reader<u32> = Reader::new();
    reader.begin(1);
    assert_eq!(reader.read(Ok(Some("chunk"))), Ok(Some("chunk")));
    assert!(reader.is_idle());

    reader.begin(2);
    assert_eq!(reader.read::<&str>(Ok(None)), Ok(None));
    assert!(reader.is_idle());
}

#[test]
fn read_that_failed_stays_in_flight() {
    let mut reader: Reader<u32> = Reader::new();
    reader.begin(1);
    assert_eq!(reader.read::<&str>(Err(host("gone"))), Err(Error::Unknown(host("gone"))));
    assert!(!reader.is_idle());
    assert_eq!(reader.pending(), Some(&mut 1));
}

#[test]
fn poll_read_waits_while_the_host_works() {
    let mut reader: Reader<u32> = Reader::new();
    reader.begin(1);
    assert_eq!(reader.poll_read(Settled::Pending, 16), ReadAction::Wait);
    assert!(!reader.is_idle());
}

#[test]
fn poll_read_fills_in_a_chunk_that_fits() {
    let mut reader: Reader<u32> = Reader::new();
    reader.begin(1);
    assert_eq!(
        reader.poll_read(Settled::Fulfilled(ChunkKind::Data(10)), 16),
        ReadAction::Fill { take: 10, leftover: false }
    );
    assert!(reader.is_idle());

    reader.begin(2);
    assert_eq!(
        reader.poll_read(Settled::Fulfilled(ChunkKind::Data(16)), 16),
        ReadAction::Fill { take: 16, leftover: false }
    );
}

#[test]
fn poll_read_splits_a_chunk_that_does_not_fit() {
    let mut reader: Reader<u32> = Reader::new();
    reader.begin(1);
    assert_eq!(
        reader.poll_read(Settled::Fulfilled(ChunkKind::Data(100)), 16),
        ReadAction::Fill { take: 16, leftover: true }
    );
    assert!(reader.is_idle());
    // The rest answers the next read.
    reader.begin(2);
    assert_eq!(
        reader.poll_read(Settled::Fulfilled(ChunkKind::Data(84)), 1_000),
        ReadAction::Fill { take: 84, leftover: false }
    );
}

#[test]
fn poll_read_with_a_full_buffer_takes_nothing() {
    let mut reader: Reader<u32> = Reader::new();
    reader.begin(1);
    assert_eq!(
        reader.poll_read(Settled::Fulfilled(ChunkKind::Data(5)), 0),
        ReadAction::Fill { take: 0, leftover: true }
    );
    reader.begin(2);
    assert_eq!(
        reader.poll_read(Settled::Fulfilled(ChunkKind::Data(0)), 0),
        ReadAction::Fill { take: 0, leftover: false }
    );
}

#[test]
fn poll_read_reports_the_end_and_what_is_no_chunk() {
    let mut reader: Reader<u32> = Reader::new();
    reader.begin(1);
    assert_eq!(reader.poll_read(Settled::Fulfilled(ChunkKind::Done), 16), ReadAction::Eof);
    assert!(reader.is_idle());
    reader.begin(2);
    assert_eq!(reader.poll_read(Settled::Fulfilled(ChunkKind::Other), 16), ReadAction::Unsupported);
    assert!(reader.is_idle());
    reader.begin(3);
    assert_eq!(reader.poll_read(Settled::Rejected(host("gone")), 16), ReadAction::Failed);
    assert!(reader.is_idle());
}

#[test]
fn writer_keeps_the_write_in_flight() {
    let mut writer: TypedWriter<u32> = TypedWriter::new();
    assert!(writer.is_idle());
    assert_eq!(writer.begin(1), None);
    assert!(!writer.is_idle());
    // A new write takes the place of the one in flight.
    assert_eq!(writer.begin(2), Some(1));
    assert_eq!(writer.pending(), Some(&mut 2));
    assert_eq!(writer.take(), Some(2));
    assert!(writer.is_idle());
    assert_eq!(writer.take(), None);
}

#[test]
fn write_ends_the_write_in_flight_on_success_only() {
    let mut writer: TypedWriter<u32> = TypedWriter::new();
    writer.begin(1);
    assert_eq!(writer.write(Ok(())), Ok(()));
    assert!(writer.is_idle());
    writer.begin(2);
    assert_eq!(writer.write(Err(host("full"))), Err(Error::Unknown(host("full"))));
    assert!(!writer.is_idle());
}

#[test]
fn writer_with_a_write_in_flight_cannot_be_given_up() {
    let writer: TypedWriter<u32> = TypedWriter::new();
    assert!(writer.into_idle().is_ok());
    let mut writer: TypedWriter<u32> = TypedWriter::new();
    writer.begin(7);
    let mut back = writer.into_idle().unwrap_err();
    assert_eq!(back.pending(), Some(&mut 7));
}

#[test]
fn poll_write_on_a_closed_stream_is_a_broken_pipe() {
    let mut writer: TypedWriter<u32> = TypedWriter::new();
    assert_eq!(writer.poll_write(Room::Closed, Settled::Pending), WriteAction::BrokenPipe);
    writer.begin(1);
    assert_eq!(writer.poll_write(Room::Closed, Settled::Fulfilled(())), WriteAction::BrokenPipe);
    assert!(!writer.is_idle());
}

#[test]
fn poll_write_on_a_full_stream_waits_for_the_write_in_flight() {
    let mut writer: TypedWriter<u32> = TypedWriter::new();
    assert_eq!(writer.poll_write(Room::Full, Settled::Pending), WriteAction::Done);
    writer.begin(1);
    assert_eq!(writer.poll_write(Room::Full, Settled::Pending), WriteAction::Wait);
    assert!(!writer.is_idle());
    assert_eq!(writer.poll_write(Room::Full, Settled::Fulfilled(())), WriteAction::Done);
    assert!(writer.is_idle());
    writer.begin(2);
    assert_eq!(
        writer.poll_write(Room::Full, Settled::Rejected(host("bad"))),
        WriteAction::Failed(host("bad"))
    );
    assert!(writer.is_idle());
}

#[test]
fn poll_write_with_room_submits_unless_the_last_write_failed() {
    let mut writer: TypedWriter<u32> = TypedWriter::new();
    assert_eq!(writer.poll_write(Room::Free, Settled::Pending), WriteAction::Submit);
    writer.begin(1);
    assert_eq!(writer.poll_write(Room::Free, Settled::Pending), WriteAction::Submit);
    assert!(writer.is_idle());
    writer.begin(2);
    assert_eq!(writer.poll_write(Room::Free, Settled::Fulfilled(())), WriteAction::Submit);
    writer.begin(3);
    assert_eq!(
        writer.poll_write(Room::Free, Settled::Rejected(host("bad"))),
        WriteAction::Failed(host("bad"))
    );
    assert!(writer.is_idle());
    // Without a write in flight a stale failure means nothing.
    assert_eq!(writer.poll_write(Room::Free, Settled::Rejected(host("old"))), WriteAction::Submit);
}

#[test]
fn poll_flush_is_done_when_nothing_is_in_flight() {
    let mut writer: TypedWriter<u32> = TypedWriter::new();
    assert_eq!(writer.poll_flush(Settled::Pending), WriteAction::Done);
    writer.begin(1);
    assert_eq!(writer.poll_flush(Settled::Pending), WriteAction::Wait);
    assert!(!writer.is_idle());
    assert_eq!(writer.poll_flush(Settled::Fulfilled(())), WriteAction::Done);
    assert!(writer.is_idle());
    writer.begin(2);
    assert_eq!(writer.poll_flush(Settled::Rejected(host("bad"))), WriteAction::Failed(host("bad")));
    assert!(writer.is_idle());
}
