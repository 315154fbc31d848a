//! The device side of the link, as a machine that is told what happened and
//! says what to do on the sensor bus next. The bus, the reset line, the
//! delays and the serial port stay with the caller, which runs the loop.
//!
//! A change of the control register is committed only after the sensor has
//! given the new value back: what the configuration says of the register is
//! what the sensor was seen to hold.

use vstd::prelude::*;
use crate::bounded::batch_get;
use crate::bounded::batch_items;
use crate::bounded::batch_len;
use crate::bounded::batch_new;
use crate::bounded::batch_pop;
use crate::bounded::batch_push;
use crate::bounded::packet_bytes;
use crate::bounded::packet_extend;
use crate::bounded::packet_new;
use crate::burstmem::BurstMemory16;
use crate::burstmem::BurstMemory32;
use crate::cfg::Burst32;
use crate::cfg::CFG;
use crate::config::Config;
use crate::framing::frame_of;
use crate::framing::to_vec_cobs;
use crate::memorymap::request;
use crate::memorymap::request_word;
use crate::memorymap::to_write;
use crate::memorymap::write_high_word;
use crate::memorymap::write_low_word;
use crate::memorymap::GLOB_CMD;
use crate::memorymap::MSC_CTRL;
use crate::message::Message;
use crate::msc_ctrl::lemma_decode_encode;
use crate::msc_ctrl::MscCtrl;
use crate::wire::frame16;
use crate::wire::frame32;

verus! {

/// Least time between two word transactions on the sensor bus, in
/// microseconds.
pub const SPI_DATA_DELAY_US: u64 = 16;

/// Time that the sensor is given to take a register write, in milliseconds.
pub const SETTLE_DELAY_MS: u32 = 1;

/// Time that the reset line is held low, in microseconds.
pub const RESET_PULSE_US: u32 = 50;

/// Keeps the time of the last word transaction on the sensor bus, so that
/// the next one can be held back until the bus has rested long enough. One
/// bus has one timer, owned by whoever drives the bus.
#[derive(Copy, Clone, Debug, PartialEq, Eq, Structural)]
pub struct BusTimer {
    pub last: Option<u64>,
}

impl BusTimer {
    /// Whether a transaction may start at `now`: there was none before, or
    /// the last one lies at least `SPI_DATA_DELAY_US` back. A clock that
    /// reads earlier than the last transaction holds the bus back.
    pub open spec fn may_start(self, now: u64) -> bool {
        match self.last {
            None => true,
            Some(last) => now >= last && now - last >= SPI_DATA_DELAY_US,
        }
    }

    /// A timer of a bus that has not been used yet.
    pub fn new() -> (timer: Self)
        ensures
            timer.last is None,
    {
        BusTimer { last: None }
    }

    /// Whether a transaction may start at `now`, in microseconds.
    pub fn ready(&self, now: u64) -> (go: bool)
        ensures
            go == self.may_start(now),
    {
        match self.last {
            None => true,
            Some(last) => now >= last && now - last >= SPI_DATA_DELAY_US,
        }
    }

    /// Notes that a transaction ended at `now`, in microseconds.
    pub fn mark(&mut self, now: u64)
        ensures
            final(self).last == Some(now),
            forall|later: u64| #[trigger]
                final(self).may_start(later) <==> later - now >= SPI_DATA_DELAY_US,
    {
        self.last = Some(now);
    }
}

/// What the machine waits for.
#[derive(Copy, Clone, Debug, PartialEq, Eq, Structural)]
pub enum Waiting {
    /// Nothing: the next thing to come is a message.
    Nothing,
    /// The word that the sensor gives back for the control register, after
    /// this change was written to it.
    ReadBack(CFG),
    /// The word that the sensor answers to a forwarded register word.
    Response,
}

/// What happened.
#[derive(Copy, Clone, Debug)]
pub enum Event {
    /// A message came from the host.
    Message(Message),
    /// The control register was read back: the word, or nothing where the
    /// bus failed.
    ReadBack(Option<u16>),
    /// The sensor answered a forwarded word: the answer, or nothing where
    /// the bus failed.
    Response(Option<u16>),
}

/// What to do on the sensor next.
#[derive(Copy, Clone, Debug)]
pub enum Action {
    /// Nothing.
    Idle,
    /// Send the two words of `write`, wait `SETTLE_DELAY_MS`, send `read`
    /// and report the word that comes back as `Event::ReadBack`.
    WriteVerify { write: [u16; 2], read: u16 },
    /// Send `word`, then a word of zero, and report the word that comes
    /// back for the second as `Event::Response`.
    Forward { word: u16 },
    /// Hold the reset line low for `RESET_PULSE_US`, then release it.
    Reset,
}

/// The machine as its contracts see it.
pub struct State {
    pub config: Config,
    /// The acknowledgements and responses that wait to be sent, oldest
    /// first; never more than eight.
    pub responses: Seq<Message>,
    pub waiting: Waiting,
}

/// What the machine tells the caller to do, as its contracts see it.
pub enum Order {
    Idle,
    WriteVerify { write: Seq<u16>, read: u16 },
    Forward { word: u16 },
    Reset,
}

impl Action {
    /// The order that the action stands for.
    pub open spec fn order(self) -> Order {
        match self {
            Action::Idle => Order::Idle,
            Action::WriteVerify { write, read } => Order::WriteVerify { write: write@, read },
            Action::Forward { word } => Order::Forward { word },
            Action::Reset => Order::Reset,
        }
    }
}

/// A queue with one more message at its end, or the same queue where it
/// holds eight already.
pub open spec fn queued(responses: Seq<Message>, message: Message) -> Seq<Message> {
    if responses.len() < 8 {
        responses.push(message)
    } else {
        responses
    }
}

/// The configuration that a change asks for.
pub open spec fn candidate(config: Config, change: CFG) -> Config {
    match change {
        CFG::BurstEn(enabled) => Config { burst_enabled: enabled, ..config },
        _ => Config { msc_ctrl: change.applied(config.msc_ctrl), ..config },
    }
}

/// The words that write a control value to the sensor.
pub open spec fn write_words(ctrl: MscCtrl) -> Seq<u16> {
    seq![write_low_word(MSC_CTRL, ctrl.encoded()), write_high_word(MSC_CTRL, ctrl.encoded())]
}

/// What a message from the host leads to.
///
/// A change of the streaming flag is carried out and acknowledged at once.
/// A change of a register field that asks for what the register holds
/// already is acknowledged at once, with nothing sent on the bus. Any other
/// change is written to the sensor and waits to be read back. A register
/// word is forwarded. A restart resets the sensor and the configuration and
/// is acknowledged. Burst frames and error reports lead to nothing.
pub open spec fn on_message(state: State, message: Message) -> (State, Order) {
    let idle = State { waiting: Waiting::Nothing, ..state };
    match message {
        Message::CFG(change) => {
            let wanted = candidate(state.config, change);
            if wanted.msc_ctrl == state.config.msc_ctrl {
                (
                    State {
                        config: wanted,
                        responses: queued(state.responses, message),
                        waiting: Waiting::Nothing,
                    },
                    Order::Idle,
                )
            } else {
                (
                    State { waiting: Waiting::ReadBack(change), ..state },
                    Order::WriteVerify {
                        write: write_words(wanted.msc_ctrl),
                        read: request_word(MSC_CTRL),
                    },
                )
            }
        },
        Message::RQR(word) => (
            State { waiting: Waiting::Response, ..state },
            Order::Forward { word },
        ),
        Message::RST => (
            State {
                config: Config::initial(),
                responses: queued(state.responses, message),
                waiting: Waiting::Nothing,
            },
            Order::Reset,
        ),
        _ => (idle, Order::Idle),
    }
}

/// What the word that was read back leads to: the change that waits for it
/// is committed and acknowledged if the word decodes to exactly the control
/// value that was asked for. In every other case the change is dropped
/// without a word to the host, and the configuration stays as it was.
pub open spec fn on_read_back(state: State, word: Option<u16>) -> State {
    let idle = State { waiting: Waiting::Nothing, ..state };
    match state.waiting {
        Waiting::ReadBack(change) => {
            let wanted = candidate(state.config, change);
            if word is Some && MscCtrl::decoded(word->0) == wanted.msc_ctrl {
                State {
                    config: wanted,
                    responses: queued(state.responses, Message::CFG(change)),
                    waiting: Waiting::Nothing,
                }
            } else {
                idle
            }
        },
        _ => idle,
    }
}

/// What the answer to a forwarded word leads to: it goes to the host as it
/// came; where the bus failed nothing goes.
pub open spec fn on_response(state: State, word: Option<u16>) -> State {
    let idle = State { waiting: Waiting::Nothing, ..state };
    match state.waiting {
        Waiting::Response => match word {
            Some(answer) => State {
                responses: queued(state.responses, Message::RQR(answer)),
                ..idle
            },
            None => idle,
        },
        _ => idle,
    }
}

/// What an event leads to: the next state and the order to the caller.
pub open spec fn step(state: State, event: Event) -> (State, Order) {
    match event {
        Event::Message(message) => on_message(state, message),
        Event::ReadBack(word) => (on_read_back(state, word), Order::Idle),
        Event::Response(word) => (on_response(state, word), Order::Idle),
    }
}

/// What flushing leaves of a queue and puts into a packet that holds
/// `packet` already: the frames of the messages from the newest back, as
/// long as each fits in what is left of the 64 bytes.
pub open spec fn flushed(responses: Seq<Message>, packet: Seq<u8>) -> Seq<u8>
    decreases responses.len(),
{
    if responses.len() == 0 {
        packet
    } else {
        let frame = frame_of(responses.last());
        if packet.len() + frame.len() <= 64 {
            flushed(responses.drop_last(), packet + frame)
        } else {
            packet
        }
    }
}

/// Number of words in a burst frame under a configuration: 10 with 16-bit
/// fields, 16 with 32-bit fields.
pub open spec fn burst_words(config: Config) -> int {
    if config.msc_ctrl.burst32.flag() {
        16
    } else {
        10
    }
}

/// The message that carries a raw burst frame under a configuration: the
/// words as they came from the sensor, marked with the selector that the
/// configuration holds.
pub open spec fn burst_message(config: Config, words: Seq<u16>) -> Message {
    if config.msc_ctrl.burst32.flag() {
        Message::B32(config.msc_ctrl.burst_sel, frame32(words))
    } else {
        Message::B16(config.msc_ctrl.burst_sel, frame16(words))
    }
}

/// The device side of the link.
pub struct Firmware {
    config: Config,
    responses: heapless::Vec<Message, 8>,
    waiting: Waiting,
}

impl View for Firmware {
    type V = State;

    closed spec fn view(&self) -> State {
        State {
            config: self.config,
            responses: batch_items(self.responses),
            waiting: self.waiting,
        }
    }
}

impl Firmware {
    /// The machine after power-up: the initial configuration, nothing to
    /// send, nothing awaited.
    pub fn new() -> (machine: Self)
        ensures
            machine@.config == Config::initial(),
            machine@.responses == Seq::<Message>::empty(),
            machine@.waiting == Waiting::Nothing,
    {
        Firmware { config: Config::default(), responses: batch_new(), waiting: Waiting::Nothing }
    }

    /// The configuration that is in force.
    pub fn config(&self) -> (config: Config)
        ensures
            config == self@.config,
    {
        self.config
    }

    fn wanted(&self, change: CFG) -> (config: Config)
        ensures
            config == candidate(self@.config, change),
    {
        match change {
            CFG::BurstEn(enabled) => Config {
                burst_enabled: enabled,
                msc_ctrl: self.config.msc_ctrl,
            },
            _ => Config {
                burst_enabled: self.config.burst_enabled,
                msc_ctrl: change.apply(self.config.msc_ctrl),
            },
        }
    }

    fn respond(&mut self, message: Message)
        ensures
            final(self)@.config == old(self)@.config,
            final(self)@.waiting == old(self)@.waiting,
            final(self)@.responses == queued(old(self)@.responses, message),
    {
        let _ = batch_push(&mut self.responses, message);
    }

    /// Takes an event and says what to do next.
    pub fn handle(&mut self, event: Event) -> (action: Action)
        ensures
            final(self)@ == step(old(self)@, event).0,
            action.order() == step(old(self)@, event).1,
    {
        let waited = self.waiting;
        self.waiting = Waiting::Nothing;
        match event {
            Event::Message(message) => match message {
                Message::CFG(change) => {
                    let wanted = self.wanted(change);
                    if wanted.msc_ctrl == self.config.msc_ctrl {
                        self.config = wanted;
                        self.respond(message);
                        Action::Idle
                    } else {
                        self.waiting = Waiting::ReadBack(change);
                        let write = to_write(MSC_CTRL, u16::from(wanted.msc_ctrl));
                        assert(write@ =~= write_words(wanted.msc_ctrl));
                        Action::WriteVerify { write, read: request(MSC_CTRL) }
                    }
                },
                Message::RQR(word) => {
                    self.waiting = Waiting::Response;
                    Action::Forward { word }
                },
                Message::RST => {
                    self.config = Config::default();
                    self.respond(message);
                    Action::Reset
                },
                _ => Action::Idle,
            },
            Event::ReadBack(word) => {
                match waited {
                    Waiting::ReadBack(change) => {
                        let wanted = self.wanted(change);
                        match word {
                            Some(value) => {
                                if MscCtrl::from(value) == wanted.msc_ctrl {
                                    self.config = wanted;
                                    self.respond(Message::CFG(change));
                                }
                            },
                            None => {},
                        }
                    },
                    _ => {},
                }
                Action::Idle
            },
            Event::Response(word) => {
                match waited {
                    Waiting::Response => match word {
                        Some(answer) => {
                            self.respond(Message::RQR(answer));
                        },
                        None => {},
                    },
                    _ => {},
                }
                Action::Idle
            },
        }
    }

    /// Puts the frames of the waiting acknowledgements and responses into
    /// one packet of at most 64 bytes, the newest first, and stops at the
    /// first that does not fit. What is not in the packet is dropped: the
    /// queue is empty afterwards.
    pub fn flush(&mut self) -> (packet: heapless::Vec<u8, 64>)
        ensures
            packet_bytes(packet) == flushed(old(self)@.responses, Seq::empty()),
            packet_bytes(packet).len() <= 64,
            final(self)@.responses == Seq::<Message>::empty(),
            final(self)@.config == old(self)@.config,
            final(self)@.waiting == old(self)@.waiting,
    {
        let mut packet = packet_new();
        let mut left = batch_len(&self.responses);
        while left > 0
            invariant_except_break
                left == self@.responses.len(),
                flushed(old(self)@.responses, Seq::empty()) == flushed(
                    self@.responses,
                    packet_bytes(packet),
                ),
            invariant
                self@.config == old(self)@.config,
                self@.waiting == old(self)@.waiting,
                packet_bytes(packet).len() <= 64,
            ensures
                packet_bytes(packet) == flushed(old(self)@.responses, Seq::empty()),
            decreases left,
        {
            let newest = batch_get(&self.responses, left - 1);
            let fits = match to_vec_cobs::<64>(&newest) {
                Ok(frame) => packet_extend(&mut packet, frame.as_slice()),
                Err(_) => false,
            };
            if !fits {
                break ;
            }
            let _ = batch_pop(&mut self.responses);
            left = left - 1;
        }
        self.responses = batch_new();
        packet
    }

    /// Whether a burst frame is to be read now: streaming is on and the
    /// sensor has signalled new data.
    pub fn burst_due(&self, data_ready: bool) -> (due: bool)
        ensures
            due == (self@.config.burst_enabled && data_ready),
    {
        self.config.burst_enabled && data_ready
    }

    /// The word that asks the sensor for a burst frame.
    pub fn burst_request(&self) -> (word: u16)
        ensures
            word == request_word(GLOB_CMD),
    {
        request(GLOB_CMD)
    }

    /// Number of words to read for one burst frame.
    pub fn burst_len(&self) -> (count: usize)
        ensures
            count == burst_words(self@.config),
    {
        match self.config.msc_ctrl.burst32 {
            Burst32::Disabled => 10,
            Burst32::Enabled => 16,
        }
    }

    /// The frame to send to the host for the words of one burst read. The
    /// words go out as they came, marked with the selector that is in
    /// force; nothing is scaled or checked here. Words that are not a whole
    /// burst frame lead to nothing.
    pub fn burst(&self, words: &[u16]) -> (frame: Option<Vec<u8>>)
        ensures
            words@.len() == burst_words(self@.config) ==> frame is Some && frame->0@ == frame_of(
                burst_message(self@.config, words@),
            ) && frame->0@.len() <= 64,
            words@.len() != burst_words(self@.config) ==> frame is None,
    {
        let w = words;
        let message = match self.config.msc_ctrl.burst32 {
            Burst32::Disabled => {
                if w.len() != 10 {
                    return None;
                }
                Message::B16(
                    self.config.msc_ctrl.burst_sel,
                    BurstMemory16 {
                        data: [w[0], w[1], w[2], w[3], w[4], w[5], w[6], w[7], w[8], w[9]],
                    },
                )
            },
            Burst32::Enabled => {
                if w.len() != 16 {
                    return None;
                }
                Message::B32(
                    self.config.msc_ctrl.burst_sel,
                    BurstMemory32 {
                        data: [
                            w[0],
                            w[1],
                            w[2],
                            w[3],
                            w[4],
                            w[5],
                            w[6],
                            w[7],
                            w[8],
                            w[9],
                            w[10],
                            w[11],
                            w[12],
                            w[13],
                            w[14],
                            w[15],
                        ],
                    },
                )
            },
        };
        match to_vec_cobs::<64>(&message) {
            Ok(frame) => Some(frame),
            Err(_) => None,
        }
    }
}

/// A control value is committed only when the sensor has given it back:
/// whenever an event changes what the configuration says of the control
/// register, the event is either a restart, which sets the power-up value,
/// or a word read back from the sensor that decodes to the new value.
pub proof fn lemma_commit_is_verified(state: State, event: Event)
    ensures
        ({
            let next = step(state, event).0;
            next.config.msc_ctrl != state.config.msc_ctrl ==> {
                ||| event == Event::Message(Message::RST) && next.config == Config::initial()
                ||| (event matches Event::ReadBack(Some(word)) && MscCtrl::decoded(word)
                    == next.config.msc_ctrl)
            }
        }),
{
}

/// The handshake of a register change. From any state, a change that asks
/// for a new control value is written to the sensor and acknowledged with
/// nothing yet. When the word read back then decodes to the value asked
/// for, the change is committed and acknowledged with the request itself;
/// when it decodes to anything else, or the bus fails, nothing is
/// acknowledged and the configuration stays as it was.
pub proof fn lemma_handshake(state: State, change: CFG, word: Option<u16>)
    requires
        candidate(state.config, change).msc_ctrl != state.config.msc_ctrl,
    ensures
        ({
            let wanted = candidate(state.config, change);
            let asked = step(state, Event::Message(Message::CFG(change)));
            let done = step(asked.0, Event::ReadBack(word)).0;
            &&& asked.0.config == state.config
            &&& asked.0.responses == state.responses
            &&& asked.1 == (Order::WriteVerify {
                write: write_words(wanted.msc_ctrl),
                read: request_word(MSC_CTRL),
            })
            &&& (word is Some && MscCtrl::decoded(word->0) == wanted.msc_ctrl) ==> done.config
                == wanted && done.responses == queued(state.responses, Message::CFG(change))
            &&& !(word is Some && MscCtrl::decoded(word->0) == wanted.msc_ctrl) ==> done.config
                == state.config && done.responses == state.responses
        }),
{
}

/// A sensor that holds what was written to it always gets its change
/// committed: the word that encodes the value asked for decodes to that
/// value.
pub proof fn lemma_faithful_sensor_commits(state: State, change: CFG)
    requires
        candidate(state.config, change).msc_ctrl != state.config.msc_ctrl,
    ensures
        ({
            let wanted = candidate(state.config, change);
            let asked = step(state, Event::Message(Message::CFG(change)));
            let done = step(asked.0, Event::ReadBack(Some(wanted.msc_ctrl.encoded()))).0;
            done.config == wanted
        }),
{
    lemma_decode_encode(candidate(state.config, change).msc_ctrl);
}

} // verus!
