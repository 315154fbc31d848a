//! Frames on the byte stream. A frame is the byte-stuffed form of a message
//! followed by the sentinel byte 0, which occurs nowhere else in the stream.
//! The accumulator puts frames together again from reads of any length.

use vstd::prelude::*;
use crate::message::Message;
use crate::wire::lemma_parse_message;
use crate::wire::message_wire;
use crate::wire::parse_message;

verus! {

/// The byte that ends every frame.
pub const SENTINEL: u8 = 0;

/// Longest frame of any message: its bytes, one byte of stuffing overhead
/// and the sentinel.
pub const MAX_FRAME_LEN: usize = 52;

/// What can go wrong between a message and its frame.
#[derive(Debug, Clone, Copy, PartialEq, Eq, Hash, Structural)]
pub enum ProtocolError {
    /// The frame is longer than the buffer that it was to fill.
    BufferFull,
    /// The bytes of the frame are not a byte-stuffed block.
    BadFraming,
    /// The block inside the frame starts with no message.
    BadMessage,
}

/// The byte-stuffed form of a block, as `cobs::encode_vec` returns it.
pub uninterp spec fn cobs_encoded(payload: Seq<u8>) -> Seq<u8>;

/// The block that a frame unstuffs to, as `cobs::decode_in_place` leaves it
/// in the first bytes of its buffer; none where that function fails.
pub uninterp spec fn cobs_decoded(frame: Seq<u8>) -> Option<Seq<u8>>;

/// Most bytes that the stuffed form of a block of `len` bytes can take.
pub open spec fn max_encoded_len(len: nat) -> nat {
    len + (len + 253) / 254
}

/// Calls `cobs::encode_vec`. The result is the stuffed form of `payload`
/// without a sentinel. Of that function the contract takes three things on
/// trust: the stuffed form is no longer than `cobs::max_encoding_length`
/// says, it holds no zero byte, and `cobs::decode_in_place` gives `payload`
/// back from it once the sentinel is put behind it.
#[verifier::external_body]
fn cobs_encode(payload: &[u8]) -> (encoded: Vec<u8>)
    ensures
        encoded@ == cobs_encoded(payload@),
        encoded@.len() <= max_encoded_len(payload@.len()),
        forall|i: int| 0 <= i < encoded@.len() ==> encoded@[i] != 0,
        cobs_decoded(encoded@.push(0)) == Some(payload@),
{
    cobs::encode_vec(payload)
}

/// Calls `cobs::decode_in_place` on a copy of `frame` and returns the
/// unstuffed block, or nothing where that function reports an error.
#[verifier::external_body]
fn cobs_decode(frame: &[u8]) -> (decoded: Option<Vec<u8>>)
    ensures
        match decoded {
            Some(block) => cobs_decoded(frame@) == Some(block@),
            None => cobs_decoded(frame@) is None,
        },
{
    let mut buffer = frame.to_vec();
    match cobs::decode_in_place(&mut buffer) {
        Ok(used) => {
            buffer.truncate(used);
            Some(buffer)
        },
        Err(_) => None,
    }
}

/// The frame of a message: its stuffed bytes and the sentinel.
pub open spec fn frame_of(message: Message) -> Seq<u8> {
    cobs_encoded(message_wire(message)).push(0)
}

/// The message that a frame holds, if its bytes unstuff to a block that
/// starts with one.
pub open spec fn decode_frame(frame: Seq<u8>) -> Option<Message> {
    match cobs_decoded(frame) {
        Some(block) => parse_message(block),
        None => None,
    }
}

/// Whether `frame` is a well-formed frame that holds `message`: the
/// sentinel stands at its end and nowhere else, and it decodes to `message`.
pub open spec fn is_frame_of(frame: Seq<u8>, message: Message) -> bool {
    &&& frame.len() >= 1
    &&& frame.last() == 0
    &&& forall|i: int| 0 <= i < frame.len() - 1 ==> frame[i] != 0
    &&& decode_frame(frame) == Some(message)
}

/// Ends a stuffed block with the sentinel, if the frame then takes no more
/// than `B` bytes.
pub fn seal<const B: usize>(stuffed: Vec<u8>) -> (framed: Result<Vec<u8>, ProtocolError>)
    ensures
        stuffed@.len() < B ==> framed is Ok && framed->Ok_0@ == stuffed@.push(0),
        stuffed@.len() >= B ==> framed == Err::<Vec<u8>, ProtocolError>(
            ProtocolError::BufferFull,
        ),
{
    let mut frame = stuffed;
    if frame.len() < B {
        frame.push(SENTINEL);
        Ok(frame)
    } else {
        Err(ProtocolError::BufferFull)
    }
}

/// Puts a message into a frame of at most `B` bytes. Every message fits
/// where `B` is at least `MAX_FRAME_LEN`; where the frame is longer than `B`
/// the call fails and nothing is to be sent.
pub fn to_vec_cobs<const B: usize>(message: &Message) -> (framed: Result<Vec<u8>, ProtocolError>)
    ensures
        match framed {
            Ok(frame) => frame@ == frame_of(*message) && frame@.len() <= B && is_frame_of(
                frame@,
                *message,
            ),
            Err(error) => error == ProtocolError::BufferFull && frame_of(*message).len() > B,
        },
        B >= MAX_FRAME_LEN ==> framed is Ok,
{
    let block = message.to_bytes();
    let stuffed = cobs_encode(block.as_slice());
    assert(max_encoded_len(block@.len()) <= 51);
    proof {
        let frame = stuffed@.push(0);
        assert(forall|i: int| 0 <= i < frame.len() - 1 ==> frame[i] == stuffed@[i]);
        lemma_parse_message(block@, *message);
    }
    seal::<B>(stuffed)
}

/// Takes the message out of one frame. The frame may end with the sentinel
/// or stop just before it.
pub fn from_bytes_cobs(frame: &[u8]) -> (found: Result<Message, ProtocolError>)
    ensures
        found == match cobs_decoded(frame@) {
            Some(block) => match parse_message(block) {
                Some(message) => Ok::<Message, ProtocolError>(message),
                None => Err(ProtocolError::BadMessage),
            },
            None => Err(ProtocolError::BadFraming),
        },
        found is Ok <==> decode_frame(frame@) is Some,
        found is Ok ==> Some(found->Ok_0) == decode_frame(frame@),
{
    match cobs_decode(frame) {
        Some(block) => match Message::from_bytes(block.as_slice()) {
            Some(message) => Ok(message),
            None => Err(ProtocolError::BadMessage),
        },
        None => Err(ProtocolError::BadFraming),
    }
}

/// Position of the first sentinel in a run of bytes, or the length of the
/// run where it holds none.
pub open spec fn first_zero(bytes: Seq<u8>) -> int
    decreases bytes.len(),
{
    if bytes.len() == 0 {
        0
    } else if bytes[0] == 0 {
        0
    } else {
        1 + first_zero(bytes.skip(1))
    }
}

/// What one feed of the accumulator came to.
#[derive(Debug, Clone, Copy, PartialEq, Eq)]
pub enum Outcome {
    /// All input went into the buffer; no frame is complete yet.
    Consumed,
    /// The frame in progress did not fit the buffer and was dropped.
    OverFull,
    /// A frame was complete but held no message; it was dropped.
    DeserError,
    /// A frame was complete and held this message.
    Success(Message),
}

/// One feed in full: what it came to, the bytes that stay in the buffer
/// and the input that is left for the next feed.
pub struct Step {
    pub outcome: Outcome,
    pub pending: Seq<u8>,
    pub remaining: Seq<u8>,
}

/// What feeding `input` does to an accumulator of `capacity` bytes that
/// holds `pending`.
///
/// Empty input changes nothing. Input with a sentinel completes a frame:
/// the buffered bytes and the input up to and with the sentinel. If that
/// fits the buffer it is decoded, else dropped; either way the buffer is
/// empty afterwards and the input behind the sentinel is left over. Input
/// without a sentinel is buffered if it fits. If it does not, the buffer is
/// emptied, as many input bytes as would have filled it are dropped with
/// it, and the others are left over.
pub open spec fn feed_step(pending: Seq<u8>, input: Seq<u8>, capacity: nat) -> Step {
    let zero = first_zero(input);
    if input.len() == 0 {
        Step { outcome: Outcome::Consumed, pending, remaining: input }
    } else if zero < input.len() {
        if pending.len() + zero + 1 <= capacity {
            Step {
                outcome: match decode_frame(pending + input.take(zero + 1)) {
                    Some(message) => Outcome::Success(message),
                    None => Outcome::DeserError,
                },
                pending: Seq::empty(),
                remaining: input.skip(zero + 1),
            }
        } else {
            Step {
                outcome: Outcome::OverFull,
                pending: Seq::empty(),
                remaining: input.skip(zero + 1),
            }
        }
    } else if pending.len() + input.len() > capacity {
        Step {
            outcome: Outcome::OverFull,
            pending: Seq::empty(),
            remaining: input.skip(capacity - pending.len()),
        }
    } else {
        Step { outcome: Outcome::Consumed, pending: pending + input, remaining: Seq::empty() }
    }
}

/// The result of feeding the accumulator, with the input that is left.
#[derive(Debug, Clone, Copy)]
pub enum FeedResult<'a> {
    /// Consumed all data, still pending.
    Consumed,
    /// The buffer was filled and emptied. Holds the input that is left.
    OverFull(&'a [u8]),
    /// A frame was complete, but it held no message. Holds the input that
    /// is left.
    DeserError(&'a [u8]),
    /// A frame was complete and held a message.
    Success {
        /// The message.
        data: Message,
        /// The input that is left.
        remaining: &'a [u8],
    },
}

impl<'a> FeedResult<'a> {
    /// What the feed came to.
    pub open spec fn outcome(self) -> Outcome {
        match self {
            FeedResult::Consumed => Outcome::Consumed,
            FeedResult::OverFull(_) => Outcome::OverFull,
            FeedResult::DeserError(_) => Outcome::DeserError,
            FeedResult::Success { data, remaining } => Outcome::Success(data),
        }
    }

    /// The input that is left.
    pub open spec fn rest(self) -> Seq<u8> {
        match self {
            FeedResult::Consumed => Seq::empty(),
            FeedResult::OverFull(rest) => rest@,
            FeedResult::DeserError(rest) => rest@,
            FeedResult::Success { data, remaining } => remaining@,
        }
    }
}

/// A buffer of at most `N` bytes that collects the bytes of the frame in
/// progress.
pub struct CobsAccumulator<const N: usize> {
    buf: Vec<u8>,
}

proof fn lemma_first_zero(bytes: Seq<u8>, at: int)
    requires
        0 <= at <= bytes.len(),
        forall|i: int| 0 <= i < at ==> bytes[i] != 0,
        at == bytes.len() || bytes[at] == 0,
    ensures
        first_zero(bytes) == at,
    decreases bytes.len(),
{
    if bytes.len() > 0 && at > 0 {
        let tail = bytes.skip(1);
        assert forall|i: int| 0 <= i < at - 1 implies tail[i] != 0 by {
            assert(tail[i] == bytes[i + 1]);
        }
        lemma_first_zero(tail, at - 1);
    }
}

/// The first sentinel of a run stands where the lookup says, and there is
/// none before it.
pub proof fn lemma_first_zero_is_first(bytes: Seq<u8>)
    ensures
        0 <= first_zero(bytes) <= bytes.len(),
        forall|i: int| 0 <= i < first_zero(bytes) ==> bytes[i] != 0,
        first_zero(bytes) < bytes.len() ==> bytes[first_zero(bytes)] == 0,
    decreases bytes.len(),
{
    if bytes.len() > 0 && bytes[0] != 0 {
        let tail = bytes.skip(1);
        lemma_first_zero_is_first(tail);
        assert forall|i: int| 0 <= i < first_zero(bytes) implies bytes[i] != 0 by {
            if i > 0 {
                assert(tail[i - 1] == bytes[i]);
            }
        }
    }
}

fn find_zero(input: &[u8]) -> (at: usize)
    ensures
        at == first_zero(input@),
        at <= input@.len(),
{
    let mut at: usize = 0;
    while at < input.len() && input[at] != 0
        invariant
            at <= input@.len(),
            forall|i: int| 0 <= i < at ==> input@[i] != 0,
        decreases input@.len() - at,
    {
        at += 1;
    }
    proof {
        lemma_first_zero(input@, at as int);
    }
    at
}

impl<const N: usize> View for CobsAccumulator<N> {
    type V = Seq<u8>;

    /// The bytes of the frame in progress.
    closed spec fn view(&self) -> Seq<u8> {
        self.buf@
    }
}

impl<const N: usize> CobsAccumulator<N> {
    #[verifier::type_invariant]
    spec fn within_capacity(self) -> bool {
        self.buf@.len() <= N
    }

    /// An accumulator with nothing in its buffer.
    pub fn new() -> (fresh: Self)
        ensures
            fresh@ == Seq::<u8>::empty(),
    {
        CobsAccumulator { buf: Vec::new() }
    }

    /// Number of bytes in the buffer, never more than `N`.
    pub fn len(&self) -> (count: usize)
        ensures
            count == self@.len(),
            count <= N,
    {
        proof {
            use_type_invariant(self);
        }
        self.buf.len()
    }

    /// Feeds `input` to the accumulator. The caller feeds what is left of
    /// the input again until nothing is left.
    pub fn feed<'a>(&mut self, input: &'a [u8]) -> (result: FeedResult<'a>)
        ensures
            result.outcome() == feed_step(old(self)@, input@, N as nat).outcome,
            result.rest() == feed_step(old(self)@, input@, N as nat).remaining,
            final(self)@ == feed_step(old(self)@, input@, N as nat).pending,
            final(self)@.len() <= N,
    {
        proof {
            use_type_invariant(&*self);
        }
        if input.len() == 0 {
            return FeedResult::Consumed;
        }
        let zero = find_zero(input);
        let room: usize = N - self.buf.len();
        if zero < input.len() {
            let release = vstd::slice::slice_subrange(input, zero + 1, input.len());
            assert(release@ =~= input@.skip(zero + 1));
            if zero < room {
                let mut frame: Vec<u8> = Vec::new();
                frame.extend_from_slice(self.buf.as_slice());
                frame.extend_from_slice(vstd::slice::slice_subrange(input, 0, zero + 1));
                assert(frame@ =~= self@ + input@.take(zero + 1));
                self.buf = Vec::new();
                match from_bytes_cobs(frame.as_slice()) {
                    Ok(data) => FeedResult::Success { data, remaining: release },
                    Err(_) => FeedResult::DeserError(release),
                }
            } else {
                self.buf = Vec::new();
                FeedResult::OverFull(release)
            }
        } else if input.len() > room {
            self.buf = Vec::new();
            let release = vstd::slice::slice_subrange(input, room, input.len());
            assert(release@ =~= input@.skip(room as int));
            FeedResult::OverFull(release)
        } else {
            let mut longer: Vec<u8> = Vec::new();
            longer.extend_from_slice(self.buf.as_slice());
            longer.extend_from_slice(input);
            assert(longer@ =~= self@ + input@);
            self.buf = longer;
            FeedResult::Consumed
        }
    }

    /// Feeds `input`, and again whatever each feed leaves over, until
    /// nothing is left, and gives the messages of the frames that were
    /// completed, in their order. Frames that are too long or hold no
    /// message are dropped on the way; the call always comes to an end.
    pub fn feed_all(&mut self, input: &[u8]) -> (messages: Vec<Message>)
        ensures
            messages@ == drain(old(self)@, input@, N as nat).messages,
            final(self)@ == drain(old(self)@, input@, N as nat).pending,
    {
        let mut messages: Vec<Message> = Vec::new();
        let _ = self.len();
        if N == 0 {
            return messages;
        }
        let ghost all = drain(self@, input@, N as nat);
        let mut window: &[u8] = input;
        proof {
            assert(messages@ + all.messages =~= all.messages);
        }
        while window.len() > 0
            invariant
                N > 0,
                self@.len() <= N,
                all.messages == messages@ + drain(self@, window@, N as nat).messages,
                all.pending == drain(self@, window@, N as nat).pending,
            decreases window@.len(), self@.len(),
        {
            let ghost before = self@;
            let ghost input_now = window@;
            let ghost found = messages@;
            proof {
                lemma_feed_progress(before, input_now, N as nat);
            }
            match self.feed(window) {
                FeedResult::Consumed => {
                    window = vstd::slice::slice_subrange(window, window.len(), window.len());
                },
                FeedResult::OverFull(rest) => {
                    window = rest;
                },
                FeedResult::DeserError(rest) => {
                    window = rest;
                },
                FeedResult::Success { data, remaining } => {
                    proof {
                        let later = drain(self@, remaining@, N as nat);
                        assert(found + (seq![data] + later.messages) =~= found.push(data)
                            + later.messages);
                    }
                    messages.push(data);
                    window = remaining;
                },
            }
        }
        proof {
            assert(messages@ + Seq::<Message>::empty() =~= messages@);
        }
        messages
    }
}

/// All that a run of input comes to when it is fed until nothing is left:
/// the messages in the order of their frames, and the bytes that stay in the
/// buffer.
pub struct Drained {
    pub messages: Seq<Message>,
    pub pending: Seq<u8>,
}

/// What feeding `input`, and again whatever each feed leaves over, does to
/// an accumulator of `capacity` bytes that holds `pending`. There is nothing
/// to say of a buffer without room or of one that holds more than it can.
pub open spec fn drain(pending: Seq<u8>, input: Seq<u8>, capacity: nat) -> Drained
    decreases input.len(), pending.len(),
{
    if input.len() == 0 || capacity == 0 || pending.len() > capacity {
        Drained { messages: Seq::empty(), pending }
    } else {
        proof {
            lemma_first_zero_is_first(input);
        }
        let step = feed_step(pending, input, capacity);
        match step.outcome {
            Outcome::Consumed => Drained { messages: Seq::empty(), pending: step.pending },
            Outcome::Success(message) => {
                let rest = drain(step.pending, step.remaining, capacity);
                Drained { messages: seq![message] + rest.messages, pending: rest.pending }
            },
            _ => drain(step.pending, step.remaining, capacity),
        }
    }
}

/// A feed leaves less input than it got, or as much and fewer bytes in the
/// buffer: feeding what is left over comes to an end.
pub proof fn lemma_feed_progress(pending: Seq<u8>, input: Seq<u8>, capacity: nat)
    requires
        input.len() > 0,
        capacity > 0,
        pending.len() <= capacity,
    ensures
        ({
            let step = feed_step(pending, input, capacity);
            &&& step.pending.len() <= capacity
            &&& step.remaining.len() <= input.len()
            &&& step.outcome != Outcome::Consumed ==> (step.remaining.len() < input.len()
                || step.pending.len() < pending.len())
            &&& step.outcome == Outcome::Consumed ==> step.remaining.len() == 0
        }),
{
    lemma_first_zero_is_first(input);
}

/// A frame that is fed whole to an empty buffer with room for it yields its
/// message, and what follows the frame is fed to an empty buffer again.
pub proof fn lemma_drain_frame_first(
    frame: Seq<u8>,
    message: Message,
    rest: Seq<u8>,
    capacity: nat,
)
    requires
        is_frame_of(frame, message),
        frame.len() <= capacity,
    ensures
        drain(Seq::empty(), frame + rest, capacity).messages == seq![message] + drain(
            Seq::empty(),
            rest,
            capacity,
        ).messages,
        drain(Seq::empty(), frame + rest, capacity).pending == drain(
            Seq::empty(),
            rest,
            capacity,
        ).pending,
{
    let input = frame + rest;
    let empty = Seq::<u8>::empty();
    let zero = frame.len() - 1;
    assert forall|i: int| 0 <= i < zero implies input[i] != 0 by {
        assert(input[i] == frame[i]);
    }
    assert(input[zero] == frame[zero]);
    lemma_first_zero(input, zero);
    assert(empty + input.take(zero + 1) =~= frame);
    assert(input.skip(zero + 1) =~= rest);
    let step = feed_step(empty, input, capacity);
    assert(step.outcome == Outcome::Success(message));
    assert(step.remaining == rest);
    assert(step.pending == empty);
}

/// One frame, fed whole to an empty buffer, yields exactly its message and
/// leaves the buffer empty.
pub proof fn lemma_drain_one_frame(frame: Seq<u8>, message: Message, capacity: nat)
    requires
        is_frame_of(frame, message),
        frame.len() <= capacity,
    ensures
        drain(Seq::empty(), frame, capacity).messages == seq![message],
        drain(Seq::empty(), frame, capacity).pending == Seq::<u8>::empty(),
{
    lemma_drain_frame_first(frame, message, Seq::empty(), capacity);
    assert(frame + Seq::<u8>::empty() =~= frame);
    assert(seq![message] + Seq::<Message>::empty() =~= seq![message]);
}

/// One frame, cut at any place and fed in two parts to an empty buffer,
/// yields exactly its message, once, and leaves the buffer empty.
pub proof fn lemma_split_feed(frame: Seq<u8>, message: Message, cut: int, capacity: nat)
    requires
        is_frame_of(frame, message),
        frame.len() <= capacity,
        0 <= cut <= frame.len(),
    ensures
        ({
            let first = drain(Seq::empty(), frame.take(cut), capacity);
            let second = drain(first.pending, frame.skip(cut), capacity);
            &&& first.messages + second.messages == seq![message]
            &&& second.pending == Seq::<u8>::empty()
        }),
{
    let empty = Seq::<u8>::empty();
    let head = frame.take(cut);
    let tail = frame.skip(cut);
    let first = drain(empty, head, capacity);
    let second = drain(first.pending, tail, capacity);
    if cut == frame.len() {
        assert(head =~= frame);
        lemma_drain_one_frame(frame, message, capacity);
        assert(tail.len() == 0);
        assert(first.messages + second.messages =~= seq![message]);
    } else if cut == 0 {
        assert(tail =~= frame);
        lemma_drain_one_frame(frame, message, capacity);
        assert(first.messages + second.messages =~= seq![message]);
    } else {
        assert forall|i: int| 0 <= i < head.len() implies head[i] != 0 by {
            assert(head[i] == frame[i]);
        }
        lemma_first_zero(head, cut);
        assert(empty + head =~= head);
        assert(first.pending == head);
        assert(first.messages == Seq::<Message>::empty());
        let zero = tail.len() - 1;
        assert forall|i: int| 0 <= i < zero implies tail[i] != 0 by {
            assert(tail[i] == frame[cut + i]);
        }
        assert(tail[zero] == frame[cut + zero]);
        lemma_first_zero(tail, zero);
        assert(head + tail.take(zero + 1) =~= frame);
        let step = feed_step(head, tail, capacity);
        assert(step.outcome == Outcome::Success(message));
        assert(step.remaining.len() == 0);
        assert(step.pending == empty);
        let after = drain(step.pending, step.remaining, capacity);
        assert(after.messages == Seq::<Message>::empty());
        assert(after.pending == empty);
        assert(second.messages == seq![message] + after.messages);
        assert(first.messages + second.messages =~= seq![message]);
    }
}

/// Whether a run of bytes is a run of whole frames: it is empty or ends with
/// the sentinel.
pub open spec fn ends_frames(bytes: Seq<u8>) -> bool {
    bytes.len() == 0 || bytes.last() == 0
}

/// Input that follows a run of whole frames is fed to an empty buffer, as
/// if it had come alone; what it yields comes after what the frames yield.
pub proof fn lemma_drain_whole_frames(
    pending: Seq<u8>,
    frames: Seq<u8>,
    rest: Seq<u8>,
    capacity: nat,
)
    requires
        capacity > 0,
        pending.len() <= capacity,
        frames.len() > 0,
        frames.last() == 0,
    ensures
        drain(pending, frames + rest, capacity).messages == drain(
            pending,
            frames,
            capacity,
        ).messages + drain(Seq::empty(), rest, capacity).messages,
        drain(pending, frames + rest, capacity).pending == drain(
            Seq::empty(),
            rest,
            capacity,
        ).pending,
        drain(pending, frames, capacity).pending == Seq::<u8>::empty(),
    decreases frames.len(),
{
    let empty = Seq::<u8>::empty();
    let input = frames + rest;
    lemma_first_zero_is_first(frames);
    let zero = first_zero(frames);
    assert(zero < frames.len()) by {
        if zero == frames.len() {
            assert(frames[frames.len() - 1] != 0);
        }
    }
    assert forall|i: int| 0 <= i < zero implies input[i] != 0 by {
        assert(input[i] == frames[i]);
    }
    assert(input[zero] == frames[zero]);
    lemma_first_zero(input, zero);
    assert(input.take(zero + 1) =~= frames.take(zero + 1));
    let later = frames.skip(zero + 1);
    assert(input.skip(zero + 1) =~= later + rest);
    let alone = feed_step(pending, frames, capacity);
    let joined = feed_step(pending, input, capacity);
    assert(alone.outcome == joined.outcome);
    assert(alone.pending == empty && joined.pending == empty);
    assert(alone.remaining == later);
    assert(joined.remaining == later + rest);
    let after = drain(empty, rest, capacity);
    if later.len() == 0 {
        assert(later + rest =~= rest);
        assert(drain(empty, later, capacity).messages == Seq::<Message>::empty());
        match alone.outcome {
            Outcome::Success(message) => {
                assert(seq![message] + Seq::<Message>::empty() + after.messages =~= seq![message]
                    + after.messages);
            },
            _ => {
                assert(Seq::<Message>::empty() + after.messages =~= after.messages);
            },
        }
    } else {
        assert(later.last() == frames.last());
        lemma_drain_whole_frames(empty, later, rest, capacity);
        let inner = drain(empty, later, capacity);
        match alone.outcome {
            Outcome::Success(message) => {
                assert(seq![message] + (inner.messages + after.messages) =~= (seq![message]
                    + inner.messages) + after.messages);
            },
            _ => {},
        }
    }
}

/// Two frames with whole frames between them that hold no message, fed in
/// one run to an empty buffer, yield exactly the two messages in their
/// order and leave the buffer empty. The frames between may be of any kind:
/// too long, badly stuffed, or stuffed well around bytes that are no
/// message.
pub proof fn lemma_two_frames_around_noise(
    first: Seq<u8>,
    one: Message,
    noise: Seq<u8>,
    second: Seq<u8>,
    two: Message,
    capacity: nat,
)
    requires
        is_frame_of(first, one),
        is_frame_of(second, two),
        first.len() <= capacity,
        second.len() <= capacity,
        ends_frames(noise),
        drain(Seq::empty(), noise, capacity).messages == Seq::<Message>::empty(),
    ensures
        drain(Seq::empty(), first + noise + second, capacity).messages == seq![one, two],
        drain(Seq::empty(), first + noise + second, capacity).pending == Seq::<u8>::empty(),
{
    let empty = Seq::<u8>::empty();
    assert(first + noise + second =~= first + (noise + second));
    lemma_drain_frame_first(first, one, noise + second, capacity);
    lemma_drain_one_frame(second, two, capacity);
    if noise.len() == 0 {
        assert(noise + second =~= second);
    } else {
        lemma_drain_whole_frames(empty, noise, second, capacity);
        assert(Seq::<Message>::empty() + seq![two] =~= seq![two]);
    }
    assert(seq![one] + seq![two] =~= seq![one, two]);
}


} // verus!
