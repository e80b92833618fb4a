use slcan_fd::frame::{Can2Frame, CanFrame, Id, StandardId};
use slcan_fd::framer::{LineFramer, SLCAN_MTU};
use slcan_fd::parser::MessageParseError;

fn feed(framer: &mut LineFramer, bytes: &[u8]) -> Vec<Result<CanFrame, MessageParseError>> {
    let mut results = Vec::new();
    for &b in bytes {
        if let Some(res) = framer.process_byte(b) {
            results.push(res);
        }
    }
    results
}

fn expected_frame() -> CanFrame {
    // "t000100" decodes to the standard-identifier frame 0x000 with one
    // zero data byte.
    CanFrame::Can2(
        Can2Frame::new_data(Id::Standard(StandardId::new(0).unwrap()), &[0]).unwrap(),
    )
}

#[test]
fn resynchronizes_after_garbage_and_truncated_lines() {
    let mut framer = LineFramer::new();
    let mut stream = Vec::new();
    stream.extend_from_slice(b"garbage-without-CR\r");
    stream.extend_from_slice(b"t0001\r");
    stream.extend_from_slice(b"\r");
    stream.extend_from_slice(b"t000100\r");
    let results = feed(&mut framer, &stream);
    // The empty line surfaces nothing at all; the two malformed lines are
    // framed and rejected by the decoder; exactly one frame is decoded.
    let frames: Vec<&CanFrame> = results.iter().filter_map(|r| r.as_ref().ok()).collect();
    assert_eq!(frames.len(), 1);
    assert_eq!(*frames[0], expected_frame());
    assert_eq!(results.len(), 3);
    assert!(results[0].is_err());
    assert!(results[1].is_err());
}

#[test]
fn empty_lines_surface_nothing() {
    let mut framer = LineFramer::new();
    let results = feed(&mut framer, b"\r\r\r");
    assert!(results.is_empty());
}

#[test]
fn overflowing_line_is_discarded_silently() {
    let mut framer = LineFramer::new();
    // More bytes than the buffer holds, without a terminator: the line is
    // marked invalid and discarded at the next terminator, surfacing
    // nothing; scanning then resumes.
    let overlong = vec![b'A'; SLCAN_MTU + 40];
    let mut results = feed(&mut framer, &overlong);
    results.extend(feed(&mut framer, b"\r"));
    assert!(results.is_empty());
    let results = feed(&mut framer, b"t000100\r");
    assert_eq!(results.len(), 1);
    assert_eq!(*results[0].as_ref().unwrap(), expected_frame());
}

#[test]
fn longest_line_still_fits() {
    let mut framer = LineFramer::new();
    // A line of exactly the buffer capacity is framed, not discarded.
    let mut line = vec![b'X'; SLCAN_MTU];
    line.push(b'\r');
    let results = feed(&mut framer, &line);
    assert_eq!(results.len(), 1);
    // The decoder rejects it, but the framer surfaced it.
    assert!(results[0].is_err());
}

#[test]
fn suspending_mid_line_preserves_state() {
    // Feeding the stream in two sessions, split in the middle of a line,
    // decodes the same frame as feeding it at once.
    let mut all_at_once = LineFramer::new();
    let whole = feed(&mut all_at_once, b"t000100\r");

    let mut resumed = LineFramer::new();
    let mut split = feed(&mut resumed, b"t00");
    // The first read attempt ends here (would-block, suspension or
    // cancellation); the partial line stays buffered.
    split.extend(feed(&mut resumed, b"0100\r"));

    assert_eq!(whole.len(), 1);
    assert_eq!(split.len(), 1);
    assert_eq!(whole[0].as_ref().unwrap(), split[0].as_ref().unwrap());
    assert_eq!(*whole[0].as_ref().unwrap(), expected_frame());
}

#[test]
fn chunking_does_not_change_decoded_frames() {
    let stream = b"t12320DEAD\rr4562\rjunk\rb0012AABB\r";
    let mut reference = LineFramer::new();
    let expected = feed(&mut reference, stream);
    for split_at in 0..stream.len() {
        let mut framer = LineFramer::new();
        let mut results = feed(&mut framer, &stream[..split_at]);
        results.extend(feed(&mut framer, &stream[split_at..]));
        assert_eq!(results.len(), expected.len());
        for (a, b) in results.iter().zip(expected.iter()) {
            assert_eq!(a, b);
        }
    }
}
