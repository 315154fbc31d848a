//! The host side of the link: one session per device. The session owns the
//! accumulator and knows the sensor model. It is handed the bytes that
//! were read from the port and hands back the bytes to write; the port
//! itself and the clock stay with the caller.

use vstd::prelude::*;
use crate::bounded::batch_get;
use crate::bounded::batch_items;
use crate::bounded::batch_len;
use crate::bounded::batch_new;
use crate::bounded::batch_push;
use crate::bounded::sample_items;
use crate::bounded::samples_new;
use crate::bounded::samples_push;
use crate::burst::BurstData;
use crate::cfg::CFG;
use crate::framing::drain;
use crate::framing::frame_of;
use crate::framing::is_frame_of;
use crate::framing::lemma_feed_progress;
use crate::framing::to_vec_cobs;
use crate::framing::CobsAccumulator;
use crate::framing::FeedResult;
use crate::framing::ProtocolError;
use crate::message::Message;
use crate::version::AdisVersion;

verus! {

/// Vendor and product number under which the device shows up on the bus.
pub const VID_PID: (u16, u16) = (0x16C0, 0x27DD);

/// Line speed that both ends use unless told otherwise.
pub const DEFAULT_BAUDRATE: u32 = 115200;

/// Most bytes that one frame may take, and most bytes that one read takes
/// from the port.
pub const MAX_MESSAGE_LEN: usize = 256;

/// How long a restart, a configuration change or an error report waits for
/// its acknowledgement: one millisecond, in nanoseconds.
pub const ACK_TIMEOUT_NS: u64 = 1_000_000;

/// What a call on a session can fail with.
#[derive(Debug, Clone, Copy, PartialEq, Eq, Structural)]
pub enum AdisDeviceError {
    /// The port could not be opened or asked.
    PortError,
    /// No port belongs to the device that was looked for.
    NoPort,
    /// Reading or writing the port failed.
    IoError,
    /// A message could not be framed.
    SerializationError(ProtocolError),
    /// No acknowledgement or response came in time.
    NoResponse,
    /// The clock could not be read.
    TimeError,
    /// The device reported an error with this tag.
    DeviceError(u8),
    /// Anything else.
    Other,
}

/// What discovery knows of one port: its name and, for a port on the
/// universal serial bus, the vendor and product number behind it.
#[derive(Debug)]
pub struct PortInfo {
    pub name: String,
    pub usb: Option<(u16, u16)>,
}

/// Whether a port belongs to the given vendor and product number.
pub open spec fn port_matches(port: PortInfo, vid: u16, pid: u16) -> bool {
    port.usb == Some((vid, pid))
}

/// Tag of the first error report in a run of messages, if there is one.
pub open spec fn first_error(messages: Seq<Message>) -> Option<u8>
    decreases messages.len(),
{
    if messages.len() == 0 {
        None
    } else {
        match messages[0] {
            Message::ERR(tag) => Some(tag),
            _ => first_error(messages.skip(1)),
        }
    }
}

/// Payload of the first register word in a run of messages, if there is
/// one.
pub open spec fn first_response(messages: Seq<Message>) -> Option<u16>
    decreases messages.len(),
{
    if messages.len() == 0 {
        None
    } else {
        match messages[0] {
            Message::RQR(word) => Some(word),
            _ => first_response(messages.skip(1)),
        }
    }
}

/// The sample that a message carries, decoded for a sensor model: the
/// selector that came with the frame says what its fields are. Messages
/// other than burst frames carry none.
pub open spec fn burst_of(message: Message, version: AdisVersion) -> Option<BurstData> {
    match message {
        Message::B16(sel, mem) => Some(
            if sel.flag() {
                BurstData::sel1(mem@, 16, version)
            } else {
                BurstData::sel0(mem@, 16, version)
            },
        ),
        Message::B32(sel, mem) => Some(
            if sel.flag() {
                BurstData::sel1(mem@, 32, version)
            } else {
                BurstData::sel0(mem@, 32, version)
            },
        ),
        _ => None,
    }
}

/// The samples of all burst frames in a run of messages, in their order.
pub open spec fn bursts_of(messages: Seq<Message>, version: AdisVersion) -> Seq<BurstData>
    decreases messages.len(),
{
    if messages.len() == 0 {
        Seq::empty()
    } else {
        let earlier = bursts_of(messages.drop_last(), version);
        match burst_of(messages.last(), version) {
            Some(sample) => earlier.push(sample),
            None => earlier,
        }
    }
}

/// The first `limit` items of a run, or all of them where there are fewer.
pub open spec fn first_items<T>(items: Seq<T>, limit: int) -> Seq<T> {
    if items.len() <= limit {
        items
    } else {
        items.take(limit)
    }
}

/// What one read comes to for a session whose buffer holds `pending`: the
/// tag of the first error report among the messages of the read, or else
/// the first eight of its messages.
pub open spec fn received(pending: Seq<u8>, chunk: Seq<u8>) -> Result<Seq<Message>, u8> {
    let all = drain(pending, chunk, MAX_MESSAGE_LEN as nat).messages;
    match first_error(all) {
        Some(tag) => Err(tag),
        None => Ok(first_items(all, 8)),
    }
}

/// What one read leaves in the buffer of a session that held `pending`:
/// nothing after an error report, else whatever of the last frame has come
/// so far.
pub open spec fn pending_after(pending: Seq<u8>, chunk: Seq<u8>) -> Seq<u8> {
    let all = drain(pending, chunk, MAX_MESSAGE_LEN as nat);
    if first_error(all.messages) is Some {
        Seq::empty()
    } else {
        all.pending
    }
}

proof fn lemma_first_error_append(left: Seq<Message>, right: Seq<Message>)
    ensures
        first_error(left + right) == (if first_error(left) is Some {
            first_error(left)
        } else {
            first_error(right)
        }),
    decreases left.len(),
{
    if left.len() == 0 {
        assert(left + right =~= right);
    } else {
        assert((left + right).skip(1) =~= left.skip(1) + right);
        lemma_first_error_append(left.skip(1), right);
    }
}

proof fn lemma_first_response_append(left: Seq<Message>, right: Seq<Message>)
    ensures
        first_response(left + right) == (if first_response(left) is Some {
            first_response(left)
        } else {
            first_response(right)
        }),
    decreases left.len(),
{
    if left.len() == 0 {
        assert(left + right =~= right);
    } else {
        assert((left + right).skip(1) =~= left.skip(1) + right);
        lemma_first_response_append(left.skip(1), right);
    }
}

proof fn lemma_no_error_among(messages: Seq<Message>, report: Message)
    requires
        first_error(messages) is None,
        report is ERR,
    ensures
        !messages.contains(report),
    decreases messages.len(),
{
    if messages.len() > 0 {
        lemma_no_error_among(messages.skip(1), report);
        if messages.contains(report) {
            let at = choose|i: int| 0 <= i < messages.len() && messages[i] == report;
            if at > 0 {
                assert(messages.skip(1)[at - 1] == report);
            }
        }
    }
}

/// Looks for the first port that belongs to the given vendor and product
/// number and gives its place in the list.
pub fn find_port(ports: &Vec<PortInfo>, vid: u16, pid: u16) -> (found: Option<usize>)
    ensures
        match found {
            Some(at) => at < ports@.len() && port_matches(ports@[at as int], vid, pid)
                && forall|i: int| 0 <= i < at ==> !port_matches(ports@[i], vid, pid),
            None => forall|i: int| 0 <= i < ports@.len() ==> !port_matches(ports@[i], vid, pid),
        },
{
    let mut at: usize = 0;
    while at < ports.len()
        invariant
            at <= ports@.len(),
            forall|i: int| 0 <= i < at ==> !port_matches(ports@[i], vid, pid),
        decreases ports@.len() - at,
    {
        match ports[at].usb {
            Some((v, p)) => {
                if v == vid && p == pid {
                    return Some(at);
                }
            },
            None => {},
        }
        at += 1;
    }
    None
}

/// How many bytes to read when the port has `available` bytes waiting: all
/// of them, but no more than one frame may take.
pub fn read_len(available: u32) -> (len: usize)
    ensures
        len == (if available <= MAX_MESSAGE_LEN {
            available as int
        } else {
            MAX_MESSAGE_LEN as int
        }),
{
    if available as usize <= MAX_MESSAGE_LEN {
        available as usize
    } else {
        MAX_MESSAGE_LEN
    }
}

/// Whether a wait that has lasted `elapsed_ns` goes on: always where there
/// is no timeout, else as long as less time than the timeout has passed.
pub fn still_waiting(timeout_ns: Option<u64>, elapsed_ns: u128) -> (waiting: bool)
    ensures
        waiting == match timeout_ns {
            None => true,
            Some(limit) => elapsed_ns < limit,
        },
{
    match timeout_ns {
        None => true,
        Some(limit) => elapsed_ns < limit as u128,
    }
}

/// Whether the batch holds a message equal to `message`: the device
/// acknowledges by sending the request back.
pub fn acknowledged(batch: &heapless::Vec<Message, 8>, message: &Message) -> (seen: bool)
    ensures
        seen == batch_items(*batch).contains(*message),
{
    let count = batch_len(batch);
    let mut i: usize = 0;
    while i < count
        invariant
            count == batch_items(*batch).len(),
            i <= count,
            forall|j: int| 0 <= j < i ==> batch_items(*batch)[j] != *message,
        decreases count - i,
    {
        if batch_get(batch, i) == *message {
            return true;
        }
        i += 1;
    }
    false
}

/// The payload of the first register word in the batch, if it holds one.
pub fn response_in(batch: &heapless::Vec<Message, 8>) -> (word: Option<u16>)
    ensures
        word == first_response(batch_items(*batch)),
{
    let count = batch_len(batch);
    let ghost items = batch_items(*batch);
    let mut i: usize = 0;
    assert(items.take(0) =~= Seq::<Message>::empty());
    while i < count
        invariant
            items == batch_items(*batch),
            count == items.len(),
            i <= count,
            first_response(items.take(i as int)) is None,
        decreases count - i,
    {
        let message = batch_get(batch, i);
        proof {
            lemma_first_response_append(items.take(i as int), items.skip(i as int));
            assert(items.take(i as int) + items.skip(i as int) =~= items);
            assert(items.skip(i as int)[0] == message);
            lemma_first_response_append(items.take(i as int), seq![message]);
            assert(items.take(i as int) + seq![message] =~= items.take(i + 1));
            assert(seq![message].skip(1) =~= Seq::<Message>::empty());
        }
        match message {
            Message::RQR(word) => {
                return Some(word);
            },
            _ => {
                assert(first_response(Seq::<Message>::empty()) is None);
                assert(first_response(seq![message]) is None);
            },
        }
        i += 1;
    }
    assert(items.take(count as int) =~= items);
    None
}

/// Decodes every burst frame of the batch for the given sensor model and
/// leaves the other messages out.
pub fn decode_bursts(batch: &heapless::Vec<Message, 8>, version: &AdisVersion) -> (samples:
    heapless::Vec<BurstData, 8>)
    ensures
        sample_items(samples) == bursts_of(batch_items(*batch), *version),
{
    let count = batch_len(batch);
    let ghost items = batch_items(*batch);
    let mut samples = samples_new();
    let mut i: usize = 0;
    assert(items.take(0) =~= Seq::<Message>::empty());
    while i < count
        invariant
            items == batch_items(*batch),
            count == items.len(),
            count <= 8,
            i <= count,
            sample_items(samples) == bursts_of(items.take(i as int), *version),
            sample_items(samples).len() <= i,
        decreases count - i,
    {
        let message = batch_get(batch, i);
        proof {
            assert(items.take(i + 1).drop_last() =~= items.take(i as int));
            assert(items.take(i + 1).last() == message);
        }
        match message {
            Message::B16(sel, mem) => {
                let sample = if sel.is_set() {
                    BurstData::as_sel1(&mem, version)
                } else {
                    BurstData::as_sel0(&mem, version)
                };
                let _ = samples_push(&mut samples, sample);
            },
            Message::B32(sel, mem) => {
                let sample = if sel.is_set() {
                    BurstData::as_sel1(&mem, version)
                } else {
                    BurstData::as_sel0(&mem, version)
                };
                let _ = samples_push(&mut samples, sample);
            },
            _ => {},
        }
        i += 1;
    }
    assert(items.take(count as int) =~= items);
    samples
}

/// One session with a device.
pub struct AdisDevice {
    buffer: CobsAccumulator<256>,
    version: AdisVersion,
}

impl AdisDevice {
    /// The bytes of the frame in progress.
    pub closed spec fn pending(&self) -> Seq<u8> {
        self.buffer@
    }

    /// The sensor model that the session decodes for.
    pub closed spec fn model(&self) -> AdisVersion {
        self.version
    }

    /// A session for a sensor of the given model, with nothing received
    /// yet.
    pub fn new(version: AdisVersion) -> (device: Self)
        ensures
            device.pending() == Seq::<u8>::empty(),
            device.model() == version,
    {
        AdisDevice { buffer: CobsAccumulator::new(), version }
    }

    /// Picks the port of the device with the given vendor and product
    /// number among the ports that discovery found, and starts a session
    /// for it. Fails with `NoPort` where no port belongs to that device.
    pub fn from_vid_pid(ports: &Vec<PortInfo>, vid: u16, pid: u16, version: AdisVersion) -> (found:
        Result<(usize, AdisDevice), AdisDeviceError>)
        ensures
            match found {
                Ok((at, device)) => {
                    &&& at < ports@.len()
                    &&& port_matches(ports@[at as int], vid, pid)
                    &&& forall|i: int| 0 <= i < at ==> !port_matches(ports@[i], vid, pid)
                    &&& device.pending() == Seq::<u8>::empty()
                    &&& device.model() == version
                },
                Err(error) => error == AdisDeviceError::NoPort && forall|i: int|
                    0 <= i < ports@.len() ==> !port_matches(ports@[i], vid, pid),
            },
    {
        match find_port(ports, vid, pid) {
            Some(at) => Ok((at, AdisDevice::new(version))),
            None => Err(AdisDeviceError::NoPort),
        }
    }

    /// The sensor model that the session decodes for.
    pub fn version(&self) -> (version: AdisVersion)
        ensures
            version == self.model(),
    {
        self.version
    }

    /// Takes in the bytes of one read. Gives the messages that they
    /// complete, at most eight of them; any further ones are dropped. If
    /// one of the messages is an error report, the call fails with its tag
    /// at once: the messages before it are dropped, the bytes behind it are
    /// not looked at, and the buffer is empty afterwards.
    pub fn receive(&mut self, chunk: &[u8]) -> (batch: Result<
        heapless::Vec<Message, 8>,
        AdisDeviceError,
    >)
        ensures
            match batch {
                Ok(messages) => received(old(self).pending(), chunk@) == Ok::<Seq<Message>, u8>(
                    batch_items(messages),
                ),
                Err(error) => received(old(self).pending(), chunk@) is Err && error
                    == AdisDeviceError::DeviceError(received(old(self).pending(), chunk@)->Err_0),
            },
            final(self).pending() == pending_after(old(self).pending(), chunk@),
            final(self).model() == old(self).model(),
    {
        let ghost all = drain(self.pending(), chunk@, MAX_MESSAGE_LEN as nat);
        let ghost mut seen: Seq<Message> = Seq::empty();
        let mut out = batch_new();
        let mut window: &[u8] = chunk;
        let _ = self.buffer.len();
        proof {
            assert(seen + all.messages =~= all.messages);
        }
        while window.len() > 0
            invariant
                self.model() == old(self).model(),
                self.pending().len() <= MAX_MESSAGE_LEN,
                all == drain(old(self).pending(), chunk@, MAX_MESSAGE_LEN as nat),
                all.messages == seen + drain(
                    self.pending(),
                    window@,
                    MAX_MESSAGE_LEN as nat,
                ).messages,
                all.pending == drain(self.pending(), window@, MAX_MESSAGE_LEN as nat).pending,
                first_error(seen) is None,
                batch_items(out) == first_items(seen, 8),
            decreases window@.len(), self.pending().len(),
        {
            let ghost before = self.pending();
            let ghost input = window@;
            proof {
                lemma_feed_progress(before, input, MAX_MESSAGE_LEN as nat);
            }
            match self.buffer.feed(window) {
                FeedResult::Consumed => {
                    proof {
                        assert(drain(before, input, MAX_MESSAGE_LEN as nat).messages
                            == Seq::<Message>::empty());
                    }
                    window = vstd::slice::slice_subrange(window, window.len(), window.len());
                },
                FeedResult::OverFull(rest) => {
                    window = rest;
                },
                FeedResult::DeserError(rest) => {
                    window = rest;
                },
                FeedResult::Success { data, remaining } => {
                    proof {
                        let later = drain(self.pending(), remaining@, MAX_MESSAGE_LEN as nat);
                        assert(seen + (seq![data] + later.messages) =~= seen.push(data)
                            + later.messages);
                        lemma_first_error_append(seen, seq![data]);
                        assert(seen + seq![data] =~= seen.push(data));
                        assert(seq![data].skip(1) =~= Seq::<Message>::empty());
                    }
                    match data {
                        Message::ERR(tag) => {
                            proof {
                                lemma_first_error_append(
                                    seen.push(data),
                                    drain(
                                        self.pending(),
                                        remaining@,
                                        MAX_MESSAGE_LEN as nat,
                                    ).messages,
                                );
                            }
                            return Err(AdisDeviceError::DeviceError(tag));
                        },
                        _ => {
                            assert(first_error(Seq::<Message>::empty()) is None);
                            assert(first_error(seq![data]) is None);
                        },
                    }
                    let ghost held = batch_items(out);
                    let _ = batch_push(&mut out, data);
                    proof {
                        if seen.len() < 8 {
                            assert(held == seen);
                        } else {
                            assert(seen.push(data).take(8) =~= seen.take(8));
                        }
                        seen = seen.push(data);
                    }
                    window = remaining;
                },
            }
        }
        proof {
            if window@.len() == 0 {
                assert(seen + Seq::<Message>::empty() =~= seen);
            }
        }
        Ok(out)
    }

    /// Puts one message into the frame to write to the port. No message
    /// takes more than one frame, so the call never fails.
    pub fn send(&self, message: &Message) -> (frame: Result<Vec<u8>, AdisDeviceError>)
        ensures
            frame is Ok,
            frame->Ok_0@ == frame_of(*message),
            frame->Ok_0@.len() <= MAX_MESSAGE_LEN,
            is_frame_of(frame->Ok_0@, *message),
    {
        match to_vec_cobs::<256>(message) {
            Ok(frame) => Ok(frame),
            Err(error) => Err(AdisDeviceError::SerializationError(error)),
        }
    }

    /// One round of waiting for an acknowledgement: takes in the bytes of
    /// one read and says whether a message equal to `message` was among the
    /// messages that they completed. An error report fails the call.
    pub fn confirmed_send(&mut self, message: &Message, chunk: &[u8]) -> (seen: Result<
        bool,
        AdisDeviceError,
    >)
        ensures
            match received(old(self).pending(), chunk@) {
                Ok(messages) => seen == Ok::<bool, AdisDeviceError>(messages.contains(*message)),
                Err(tag) => seen == Err::<bool, AdisDeviceError>(
                    AdisDeviceError::DeviceError(tag),
                ),
            },
            final(self).pending() == pending_after(old(self).pending(), chunk@),
            final(self).model() == old(self).model(),
    {
        match self.receive(chunk) {
            Ok(batch) => Ok(acknowledged(&batch, message)),
            Err(error) => Err(error),
        }
    }

    /// One round of waiting for the acknowledgement of a restart; see
    /// `confirmed_send`. The wait is to end after `ACK_TIMEOUT_NS`.
    pub fn send_restart(&mut self, chunk: &[u8]) -> (seen: Result<bool, AdisDeviceError>)
        ensures
            match received(old(self).pending(), chunk@) {
                Ok(messages) => seen == Ok::<bool, AdisDeviceError>(
                    messages.contains(Message::RST),
                ),
                Err(tag) => seen == Err::<bool, AdisDeviceError>(
                    AdisDeviceError::DeviceError(tag),
                ),
            },
            final(self).pending() == pending_after(old(self).pending(), chunk@),
            final(self).model() == old(self).model(),
    {
        self.confirmed_send(&Message::RST, chunk)
    }

    /// One round of waiting for the acknowledgement of a configuration
    /// change; see `confirmed_send`. The wait is to end after
    /// `ACK_TIMEOUT_NS`.
    pub fn send_config(&mut self, config: CFG, chunk: &[u8]) -> (seen: Result<
        bool,
        AdisDeviceError,
    >)
        ensures
            match received(old(self).pending(), chunk@) {
                Ok(messages) => seen == Ok::<bool, AdisDeviceError>(
                    messages.contains(Message::CFG(config)),
                ),
                Err(tag) => seen == Err::<bool, AdisDeviceError>(
                    AdisDeviceError::DeviceError(tag),
                ),
            },
            final(self).pending() == pending_after(old(self).pending(), chunk@),
            final(self).model() == old(self).model(),
    {
        self.confirmed_send(&Message::CFG(config), chunk)
    }

    /// One round of waiting for the acknowledgement of an error report;
    /// see `confirmed_send`. The wait is to end after `ACK_TIMEOUT_NS`. The
    /// acknowledgement is an error report itself, so the round that brings
    /// it fails with its tag.
    pub fn send_error(&mut self, tag: u8, chunk: &[u8]) -> (seen: Result<bool, AdisDeviceError>)
        ensures
            match received(old(self).pending(), chunk@) {
                Ok(messages) => seen == Ok::<bool, AdisDeviceError>(false),
                Err(tag) => seen == Err::<bool, AdisDeviceError>(
                    AdisDeviceError::DeviceError(tag),
                ),
            },
            final(self).pending() == pending_after(old(self).pending(), chunk@),
            final(self).model() == old(self).model(),
    {
        let ghost before = self.pending();
        let seen = self.confirmed_send(&Message::ERR(tag), chunk);
        proof {
            if received(before, chunk@) is Ok {
                let all = drain(before, chunk@, MAX_MESSAGE_LEN as nat).messages;
                lemma_no_error_among(all, Message::ERR(tag));
                let kept = received(before, chunk@)->Ok_0;
                if kept.contains(Message::ERR(tag)) {
                    let at = choose|i: int| 0 <= i < kept.len() && kept[i] == Message::ERR(tag);
                    assert(all[at] == kept[at]);
                    assert(all.contains(Message::ERR(tag)));
                }
            }
        }
        seen
    }

    /// One round of waiting for a register word: takes in the bytes of one
    /// read and gives the payload of the first register word among the
    /// messages that they completed, as it came. An error report fails the
    /// call.
    pub fn send_request_response(&mut self, chunk: &[u8]) -> (word: Result<
        Option<u16>,
        AdisDeviceError,
    >)
        ensures
            match received(old(self).pending(), chunk@) {
                Ok(messages) => word == Ok::<Option<u16>, AdisDeviceError>(
                    first_response(messages),
                ),
                Err(tag) => word == Err::<Option<u16>, AdisDeviceError>(
                    AdisDeviceError::DeviceError(tag),
                ),
            },
            final(self).pending() == pending_after(old(self).pending(), chunk@),
            final(self).model() == old(self).model(),
    {
        match self.receive(chunk) {
            Ok(batch) => Ok(response_in(&batch)),
            Err(error) => Err(error),
        }
    }

    /// Takes in the bytes of one read and gives the samples of the burst
    /// frames that they completed, decoded for the sensor model of the
    /// session. Other messages are left out. An error report fails the
    /// call.
    pub fn expect_burst(&mut self, chunk: &[u8]) -> (samples: Result<
        heapless::Vec<BurstData, 8>,
        AdisDeviceError,
    >)
        ensures
            match received(old(self).pending(), chunk@) {
                Ok(messages) => samples is Ok && sample_items(samples->Ok_0) == bursts_of(
                    messages,
                    old(self).model(),
                ),
                Err(tag) => samples == Err::<heapless::Vec<BurstData, 8>, AdisDeviceError>(
                    AdisDeviceError::DeviceError(tag),
                ),
            },
            final(self).pending() == pending_after(old(self).pending(), chunk@),
            final(self).model() == old(self).model(),
    {
        match self.receive(chunk) {
            Ok(batch) => Ok(decode_bursts(&batch, &self.version)),
            Err(error) => Err(error),
        }
    }
}

} // verus!
