//! The line-framing state machine: it turns an arbitrarily chunked byte
//! stream into discrete CR-terminated lines, with silent recovery from
//! overlong and empty lines. Only a successfully framed, non-empty line is
//! handed to the decoder; everything else is discarded and scanning resumes
//! at the next terminator.

use vstd::prelude::*;

use crate::frame::{CanFrame, CanFrameView};
use crate::parser::{spec_parse, parse_frame_from_bytes, MessageParseError};

verus! {

/// Capacity of the receive buffer: command byte + extended identifier +
/// DLC digit + longest hex payload, then the terminator and some slack.
pub const SLCAN_MTU: usize = (1 + 8 + 1 + 128) + 1 + 16;

/// The byte that terminates every protocol line (ASCII CR).
pub const LINE_TERMINATOR: u8 = 13;

/// Mathematical model of the framer: the bytes of the partial line
/// accumulated so far, and whether the current line was marked invalid by
/// a buffer overflow.
pub ghost struct FramerView {
    pub line: Seq<u8>,
    pub error: bool,
}

impl FramerView {
    /// The state before any byte has arrived.
    pub open spec fn initial() -> FramerView {
        FramerView { line: Seq::empty(), error: false }
    }
}

/// One transition of the line-framing state machine: the state after
/// consuming `byte`, and the completed line, if that byte finished one.
/// A terminator surfaces the accumulated line exactly when it is non-empty
/// and no overflow occurred; otherwise it silently resets the state. A
/// non-terminator byte is stored, or discarded once the line is marked
/// invalid or the buffer is full.
pub open spec fn spec_step(st: FramerView, byte: u8) -> (FramerView, Option<Seq<u8>>) {
    if byte == LINE_TERMINATOR {
        if !st.error && st.line.len() > 0 {
            (FramerView::initial(), Some(st.line))
        } else {
            (FramerView::initial(), None)
        }
    } else if st.error {
        (st, None)
    } else if st.line.len() >= SLCAN_MTU {
        (FramerView { line: st.line, error: true }, None)
    } else {
        (FramerView { line: st.line.push(byte), error: false }, None)
    }
}

/// The lines a step emits: one or none.
pub open spec fn spec_line_out(out: Option<Seq<u8>>) -> Seq<Seq<u8>> {
    match out {
        Some(line) => seq![line],
        None => Seq::empty(),
    }
}

/// Folding the state machine over a whole byte sequence: the final state
/// and all completed lines, in order.
pub open spec fn spec_feed(st: FramerView, bytes: Seq<u8>) -> (FramerView, Seq<Seq<u8>>)
    decreases bytes.len(),
{
    if bytes.len() == 0 {
        (st, Seq::empty())
    } else {
        let first = spec_step(st, bytes[0]);
        let rest = spec_feed(first.0, bytes.drop_first());
        (rest.0, spec_line_out(first.1) + rest.1)
    }
}

/// Feeding a byte stream in two chunks yields the same final state and the
/// same completed lines as feeding it at once: framing is insensitive to
/// how the stream is split across read attempts, suspensions or
/// cancellations.
pub proof fn lemma_feed_chunked(st: FramerView, xs: Seq<u8>, ys: Seq<u8>)
    ensures
        spec_feed(st, xs + ys).0 == spec_feed(spec_feed(st, xs).0, ys).0,
        spec_feed(st, xs + ys).1 == spec_feed(st, xs).1 + spec_feed(spec_feed(st, xs).0, ys).1,
    decreases xs.len(),
{
    if xs.len() == 0 {
        assert(xs + ys =~= ys);
        assert(spec_feed(st, xs).1 + spec_feed(st, ys).1 =~= spec_feed(st, ys).1);
    } else {
        let first = spec_step(st, xs[0]);
        let mid = spec_feed(first.0, xs.drop_first());
        lemma_feed_chunked(first.0, xs.drop_first(), ys);
        assert((xs + ys).drop_first() =~= xs.drop_first() + ys);
        assert((xs + ys)[0] == xs[0]);
        assert(spec_line_out(first.1) + (mid.1 + spec_feed(mid.0, ys).1) =~= (spec_line_out(
            first.1,
        ) + mid.1) + spec_feed(mid.0, ys).1);
    }
}

/// Every line the framer ever surfaces is non-empty and no longer than the
/// buffer capacity: an empty line is dropped, and an overlong line is
/// discarded wholesale rather than truncated, so neither is ever handed to
/// the decoder.
pub proof fn lemma_framed_lines_bounded(st: FramerView, bytes: Seq<u8>)
    requires
        st.line.len() <= SLCAN_MTU,
    ensures
        spec_feed(st, bytes).0.line.len() <= SLCAN_MTU,
        forall|i: int|
            0 <= i < spec_feed(st, bytes).1.len() ==> 0 < (#[trigger] spec_feed(
                st,
                bytes,
            ).1[i]).len() <= SLCAN_MTU,
    decreases bytes.len(),
{
    if bytes.len() > 0 {
        let first = spec_step(st, bytes[0]);
        lemma_framed_lines_bounded(first.0, bytes.drop_first());
        let head = spec_line_out(first.1);
        let rest = spec_feed(first.0, bytes.drop_first());
        assert forall|i: int| 0 <= i < (head + rest.1).len() implies 0 < (#[trigger] (head
            + rest.1)[i]).len() <= SLCAN_MTU by {
            if i < head.len() {
                assert((head + rest.1)[i] == head[0]);
            } else {
                assert((head + rest.1)[i] == rest.1[i - head.len()]);
            }
        }
    }
}

/// The line framer: a fixed-capacity receive buffer, its fill state and an
/// overflow flag. This is the only state carried between read attempts, so
/// a read that stops mid-line (a would-block return, a suspension or a
/// cancellation) loses nothing: the next byte continues exactly where the
/// previous one left off.
pub struct LineFramer {
    buf: Vec<u8>,
    error: bool,
}

impl View for LineFramer {
    type V = FramerView;

    closed spec fn view(&self) -> FramerView {
        FramerView { line: self.buf@, error: self.error }
    }
}

impl LineFramer {
    #[verifier::type_invariant]
    spec fn inv(self) -> bool {
        self.buf@.len() <= SLCAN_MTU
    }

    /// Creates a framer with an empty buffer.
    pub fn new() -> (r: LineFramer)
        ensures
            r@ == FramerView::initial(),
    {
        LineFramer { buf: Vec::new(), error: false }
    }

    /// Consumes one byte from the stream, following one transition of the
    /// state machine; returns the completed line when that byte finished
    /// one.
    pub fn push_byte(&mut self, byte: u8) -> (r: Option<Vec<u8>>)
        ensures
            final(self)@ == spec_step(old(self)@, byte).0,
            match (r, spec_step(old(self)@, byte).1) {
                (Some(line), Some(l)) => line@ == l,
                (None, None) => true,
                _ => false,
            },
    {
        proof {
            use_type_invariant(&*self);
        }
        if byte == LINE_TERMINATOR {
            let valid = !self.error && self.buf.len() > 0;
            self.error = false;
            if valid {
                let mut line: Vec<u8> = Vec::new();
                std::mem::swap(&mut line, &mut self.buf);
                Some(line)
            } else {
                self.buf = Vec::new();
                None
            }
        } else if self.error {
            None
        } else if self.buf.len() >= SLCAN_MTU {
            self.error = true;
            None
        } else {
            let mut buf: Vec<u8> = Vec::new();
            std::mem::swap(&mut buf, &mut self.buf);
            buf.push(byte);
            self.buf = buf;
            None
        }
    }

    /// Consumes one byte from the stream; when it completes a line, the
    /// line is decoded and the result — frame or decode error — is
    /// returned. Bytes that complete no line, and discarded invalid or
    /// empty lines, return nothing.
    pub fn process_byte(&mut self, byte: u8) -> (r: Option<
        Result<CanFrame, MessageParseError>,
    >)
        ensures
            final(self)@ == spec_step(old(self)@, byte).0,
            match (r, spec_step(old(self)@, byte).1) {
                (Some(res), Some(line)) => match res {
                    Ok(f) => spec_parse(line) == Ok::<CanFrameView, MessageParseError>(f@),
                    Err(e) => spec_parse(line) == Err::<CanFrameView, MessageParseError>(e),
                },
                (None, None) => true,
                _ => false,
            },
    {
        match self.push_byte(byte) {
            Some(line) => Some(parse_frame_from_bytes(line.as_slice())),
            None => None,
        }
    }
}

} // verus!
