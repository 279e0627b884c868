use block_stream::error::StreamError;
use block_stream::frame::{locate, next_frame, on_body_event, on_frame, BodyEvent, Frame, ReadStep};

#[test]
fn whole_message_is_ready() {
    assert_eq!(next_frame(&[0x04, 0x0a, 0x02, 0x01, 0x02]), Frame::Ready { start: 1, end: 5 });
    assert_eq!(next_frame(&[0x02, 7, 8, 0x01, 9]), Frame::Ready { start: 1, end: 3 });
    assert_eq!(next_frame(&[0x00]), Frame::Ready { start: 1, end: 1 });
}

#[test]
fn long_delimiter_is_read_in_full() {
    let mut buffer = vec![0xac, 0x02];
    buffer.extend(std::iter::repeat(7u8).take(300));
    assert_eq!(next_frame(&buffer), Frame::Ready { start: 2, end: 302 });
    buffer.pop();
    assert_eq!(next_frame(&buffer), Frame::Incomplete);
    assert_eq!(next_frame(&[0x80, 0x00, 0xff]), Frame::Ready { start: 2, end: 2 });
}

#[test]
fn partial_input_is_incomplete() {
    assert_eq!(next_frame(&[]), Frame::Incomplete);
    assert_eq!(next_frame(&[0x05, 1, 2]), Frame::Incomplete);
    assert_eq!(next_frame(&[0x80]), Frame::Incomplete);
    assert_eq!(next_frame(&[0x80; 9]), Frame::Incomplete);
}

#[test]
fn endless_delimiter_is_corrupt() {
    assert_eq!(next_frame(&[0x80; 10]), Frame::Corrupt);
    assert_eq!(next_frame(&[0xff; 16]), Frame::Corrupt);
}

#[test]
fn locate_decides_from_what_was_read() {
    assert_eq!(locate(0, None), Frame::Incomplete);
    assert_eq!(locate(9, None), Frame::Incomplete);
    assert_eq!(locate(10, None), Frame::Corrupt);
    assert_eq!(locate(5, Some((4, 4))), Frame::Ready { start: 1, end: 5 });
    assert_eq!(locate(5, Some((5, 4))), Frame::Incomplete);
    assert_eq!(locate(5, Some((0, 0))), Frame::Ready { start: 5, end: 5 });
    assert_eq!(locate(5, Some((1, 6))), Frame::Corrupt);
    assert_eq!(
        locate(usize::MAX, Some((usize::MAX as u64 - 1, usize::MAX - 1))),
        Frame::Ready { start: 1, end: usize::MAX }
    );
    assert_eq!(locate(3, Some((u64::MAX, 2))), Frame::Incomplete);
}

#[test]
fn step_after_a_look_at_the_buffer() {
    assert_eq!(on_frame(Frame::Ready { start: 1, end: 5 }), ReadStep::Decode { start: 1, end: 5 });
    assert_eq!(on_frame(Frame::Incomplete), ReadStep::Await);
    assert_eq!(
        on_frame(Frame::Corrupt),
        ReadStep::Fail(StreamError::Decode("invalid length delimiter".to_string()))
    );
}

#[test]
fn step_after_reading_on() {
    assert_eq!(on_body_event(0, BodyEvent::Grew), ReadStep::Inspect);
    assert_eq!(on_body_event(3, BodyEvent::Grew), ReadStep::Inspect);
    assert_eq!(on_body_event(0, BodyEvent::Ended), ReadStep::Finish);
    assert_eq!(
        on_body_event(1, BodyEvent::Ended),
        ReadStep::Fail(StreamError::Connection("stream ended inside a message".to_string()))
    );
    assert_eq!(
        on_body_event(0, BodyEvent::Failed("reset".to_string())),
        ReadStep::Fail(StreamError::Connection("reset".to_string()))
    );
    assert_eq!(
        on_body_event(9, BodyEvent::Failed("reset".to_string())),
        ReadStep::Fail(StreamError::Connection("reset".to_string()))
    );
}
