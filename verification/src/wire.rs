//! The byte form of messages, before framing.
//!
//! A message starts with the position of its variant. Variant positions and
//! 16-bit words are written as little-endian base-128 numbers, the top bit of
//! a byte saying that another byte follows; single bytes and flags are
//! written as they are. A reader accepts numbers with more bytes than needed
//! and ignores whatever follows a complete message.

use vstd::prelude::*;
use crate::burstmem::BurstMemory16;
use crate::burstmem::BurstMemory32;
use crate::cfg::BurstSel;
use crate::cfg::CFG;
use crate::message::Message;

verus! {

/// Longest byte form of any message: a variant position, a selector and
/// sixteen words of three bytes.
pub const MAX_WIRE_LEN: usize = 50;

/// Shortest base-128 form of a number, low digits first.
pub open spec fn varint(value: nat) -> Seq<u8>
    decreases value,
{
    if value < 128 {
        seq![value as u8]
    } else {
        seq![(value % 128 + 128) as u8] + varint(value / 128)
    }
}

/// One more than the largest number that `limit` base-128 bytes can hold
/// when the last of them may be at most `top`.
pub open spec fn varint_bound(limit: nat, top: int) -> int
    decreases limit,
{
    if limit <= 1 {
        top + 1
    } else {
        128 * varint_bound((limit - 1) as nat, top)
    }
}

/// Reads a base-128 number of at most `limit` bytes at position `at`: the
/// number and the position after it. There is none where the bytes end too
/// early, where byte number `limit` asks for another one, or where it is
/// above `top`.
pub open spec fn read_varint(bytes: Seq<u8>, at: int, limit: nat, top: int) -> Option<(int, int)>
    decreases limit,
{
    if limit == 0 || at < 0 || at >= bytes.len() {
        None
    } else if bytes[at] < 128 {
        if limit == 1 && bytes[at] > top {
            None
        } else {
            Some((bytes[at] as int, at + 1))
        }
    } else {
        match read_varint(bytes, at + 1, (limit - 1) as nat, top) {
            Some((rest, next)) => Some((bytes[at] - 128 + 128 * rest, next)),
            None => None,
        }
    }
}

/// Reads a 16-bit word: at most three bytes, the third at most 3.
pub open spec fn read_u16(bytes: Seq<u8>, at: int) -> Option<(int, int)> {
    read_varint(bytes, at, 3, 3)
}

/// Reads a variant position: at most five bytes, the fifth at most 15.
pub open spec fn read_index(bytes: Seq<u8>, at: int) -> Option<(int, int)> {
    read_varint(bytes, at, 5, 15)
}

/// Reads a field with two values, written as the position of the value.
pub open spec fn read_flag(bytes: Seq<u8>, at: int) -> Option<(bool, int)> {
    match read_index(bytes, at) {
        Some((index, next)) => if index == 0 {
            Some((false, next))
        } else if index == 1 {
            Some((true, next))
        } else {
            None
        },
        None => None,
    }
}

/// Reads a flag written as the byte 0 or 1.
pub open spec fn read_bool(bytes: Seq<u8>, at: int) -> Option<(bool, int)> {
    if at < 0 || at >= bytes.len() {
        None
    } else if bytes[at] == 0 {
        Some((false, at + 1))
    } else if bytes[at] == 1 {
        Some((true, at + 1))
    } else {
        None
    }
}

/// Reads `count` words one after the other.
pub open spec fn read_words(bytes: Seq<u8>, at: int, count: nat) -> Option<Seq<u16>>
    decreases count,
{
    if count == 0 {
        Some(Seq::<u16>::empty())
    } else {
        match read_u16(bytes, at) {
            Some((word, next)) => match read_words(bytes, next, (count - 1) as nat) {
                Some(rest) => Some(seq![word as u16] + rest),
                None => None,
            },
            None => None,
        }
    }
}

/// The byte form of a run of words.
pub open spec fn words_wire(words: Seq<u16>) -> Seq<u8>
    decreases words.len(),
{
    if words.len() == 0 {
        Seq::<u8>::empty()
    } else {
        varint(words[0] as nat) + words_wire(words.skip(1))
    }
}

/// The byte that stands for a flag.
pub open spec fn flag_byte(flag: bool) -> u8 {
    if flag {
        1
    } else {
        0
    }
}

/// The frame with ten given words.
pub open spec fn frame16(words: Seq<u16>) -> BurstMemory16 {
    BurstMemory16 {
        data: [
            words[0],
            words[1],
            words[2],
            words[3],
            words[4],
            words[5],
            words[6],
            words[7],
            words[8],
            words[9],
        ],
    }
}

/// The frame with sixteen given words.
pub open spec fn frame32(words: Seq<u16>) -> BurstMemory32 {
    BurstMemory32 {
        data: [
            words[0],
            words[1],
            words[2],
            words[3],
            words[4],
            words[5],
            words[6],
            words[7],
            words[8],
            words[9],
            words[10],
            words[11],
            words[12],
            words[13],
            words[14],
            words[15],
        ],
    }
}

/// The byte form of a configuration request: its position, then its bit.
pub open spec fn cfg_wire(request: CFG) -> Seq<u8> {
    seq![request.tag(), flag_byte(request.flag())]
}

/// Reads a configuration request at position `at`. The streaming flag is
/// written as a byte 0 or 1, every other field as the position of its value.
pub open spec fn read_cfg(bytes: Seq<u8>, at: int) -> Option<CFG> {
    match read_index(bytes, at) {
        Some((tag, next)) => if tag == 0 {
            match read_bool(bytes, next) {
                Some((flag, _)) => Some(CFG::with(0, flag)),
                None => None,
            }
        } else if tag < 8 {
            match read_flag(bytes, next) {
                Some((flag, _)) => Some(CFG::with(tag as u8, flag)),
                None => None,
            }
        } else {
            None
        },
        None => None,
    }
}

/// The byte form of a message.
pub open spec fn message_wire(message: Message) -> Seq<u8> {
    match message {
        Message::CFG(request) => seq![0u8] + cfg_wire(request),
        Message::RQR(word) => seq![1u8] + varint(word as nat),
        Message::B16(sel, mem) => seq![2u8, flag_byte(sel.flag())] + words_wire(mem@),
        Message::B32(sel, mem) => seq![3u8, flag_byte(sel.flag())] + words_wire(mem@),
        Message::RST => seq![4u8],
        Message::ERR(tag) => seq![5u8, tag],
    }
}

/// The message that a run of bytes starts with, if it starts with one.
pub open spec fn parse_message(bytes: Seq<u8>) -> Option<Message> {
    match read_index(bytes, 0) {
        Some((tag, at)) => if tag == 0 {
            match read_cfg(bytes, at) {
                Some(request) => Some(Message::CFG(request)),
                None => None,
            }
        } else if tag == 1 {
            match read_u16(bytes, at) {
                Some((word, _)) => Some(Message::RQR(word as u16)),
                None => None,
            }
        } else if tag == 2 {
            match read_flag(bytes, at) {
                Some((flag, next)) => match read_words(bytes, next, 10) {
                    Some(words) => Some(Message::B16(BurstSel::of_flag(flag), frame16(words))),
                    None => None,
                },
                None => None,
            }
        } else if tag == 3 {
            match read_flag(bytes, at) {
                Some((flag, next)) => match read_words(bytes, next, 16) {
                    Some(words) => Some(Message::B32(BurstSel::of_flag(flag), frame32(words))),
                    None => None,
                },
                None => None,
            }
        } else if tag == 4 {
            Some(Message::RST)
        } else if tag == 5 {
            if at < bytes.len() {
                Some(Message::ERR(bytes[at]))
            } else {
                None
            }
        } else {
            None
        },
        None => None,
    }
}

/// Whether `bytes` holds `part` from position `at` on.
pub open spec fn holds_at(bytes: Seq<u8>, at: int, part: Seq<u8>) -> bool {
    &&& 0 <= at
    &&& at + part.len() <= bytes.len()
    &&& forall|i: int| 0 <= i < part.len() ==> bytes[at + i] == #[trigger] part[i]
}

proof fn lemma_holds_at_split(bytes: Seq<u8>, at: int, left: Seq<u8>, right: Seq<u8>)
    requires
        holds_at(bytes, at, left + right),
    ensures
        holds_at(bytes, at, left),
        holds_at(bytes, at + left.len(), right),
{
    let whole = left + right;
    assert forall|i: int| 0 <= i < left.len() implies bytes[at + i] == #[trigger] left[i] by {
        assert(whole[i] == left[i]);
    }
    assert forall|i: int| 0 <= i < right.len() implies bytes[at + left.len() + i]
        == #[trigger] right[i] by {
        assert(whole[left.len() + i] == right[i]);
    }
}

/// The shortest form of a number below 2^16 takes one to three bytes.
pub proof fn lemma_varint_len(value: nat)
    requires
        value < 0x1_0000,
    ensures
        1 <= varint(value).len() <= 3,
{
    reveal_with_fuel(varint, 3);
}

/// Reading the shortest form of a number gives the number back, wherever
/// the form stands and whatever follows it.
pub proof fn lemma_read_varint(bytes: Seq<u8>, at: int, limit: nat, top: int, value: nat)
    requires
        limit >= 1,
        0 <= top < 128,
        value < varint_bound(limit, top),
        holds_at(bytes, at, varint(value)),
    ensures
        read_varint(bytes, at, limit, top) == Some((value as int, at + varint(value).len())),
    decreases limit,
{
    let form = varint(value);
    assert(bytes[at] == form[0]);
    if value < 128 {
    } else {
        let rest = varint(value / 128);
        assert(form =~= seq![(value % 128 + 128) as u8] + rest);
        lemma_holds_at_split(bytes, at, seq![(value % 128 + 128) as u8], rest);
        lemma_read_varint(bytes, at + 1, (limit - 1) as nat, top, value / 128);
    }
}

proof fn lemma_read_small(bytes: Seq<u8>, at: int, value: u8)
    requires
        value < 128,
        0 <= at < bytes.len(),
        bytes[at] == value,
    ensures
        read_index(bytes, at) == Some((value as int, at + 1)),
        read_u16(bytes, at) == Some((value as int, at + 1)),
{
}

/// Appending a word to a run appends its bytes to the byte form of the run.
pub proof fn lemma_words_wire_push(words: Seq<u16>, word: u16)
    ensures
        words_wire(words.push(word)) == words_wire(words) + varint(word as nat),
    decreases words.len(),
{
    let longer = words.push(word);
    if words.len() == 0 {
        assert(longer.skip(1) =~= Seq::<u16>::empty());
        assert(words_wire(longer.skip(1)) =~= Seq::<u8>::empty());
        assert(words_wire(words) =~= Seq::<u8>::empty());
        assert(longer[0] == word);
        assert(words_wire(longer) =~= words_wire(words) + varint(word as nat));
    } else {
        assert(longer.skip(1) =~= words.skip(1).push(word));
        lemma_words_wire_push(words.skip(1), word);
        assert(words_wire(longer) =~= words_wire(words) + varint(word as nat));
    }
}

/// The byte form of a run of words takes at most three bytes a word.
pub proof fn lemma_words_wire_len(words: Seq<u16>)
    ensures
        words_wire(words).len() <= 3 * words.len(),
    decreases words.len(),
{
    if words.len() > 0 {
        lemma_varint_len(words[0] as nat);
        lemma_words_wire_len(words.skip(1));
    }
}

/// Reading the byte form of a run of words gives the run back.
pub proof fn lemma_read_words(bytes: Seq<u8>, at: int, words: Seq<u16>)
    requires
        holds_at(bytes, at, words_wire(words)),
    ensures
        read_words(bytes, at, words.len()) == Some(words),
    decreases words.len(),
{
    if words.len() == 0 {
        assert(words =~= Seq::<u16>::empty());
    } else {
        let head = varint(words[0] as nat);
        let tail = words_wire(words.skip(1));
        lemma_holds_at_split(bytes, at, head, tail);
        assert(varint_bound(3, 3) == 0x1_0000) by {
            reveal_with_fuel(varint_bound, 3);
        }
        lemma_read_varint(bytes, at, 3, 3, words[0] as nat);
        lemma_read_words(bytes, at + head.len(), words.skip(1));
        assert(seq![words[0]] + words.skip(1) =~= words);
    }
}

/// No message takes more than `MAX_WIRE_LEN` bytes, and none is empty.
pub proof fn lemma_message_wire_len(message: Message)
    ensures
        1 <= message_wire(message).len() <= MAX_WIRE_LEN,
{
    match message {
        Message::RQR(word) => {
            lemma_varint_len(word as nat);
        },
        Message::B16(_, mem) => {
            lemma_words_wire_len(mem@);
        },
        Message::B32(_, mem) => {
            lemma_words_wire_len(mem@);
        },
        _ => {},
    }
}

/// Every message is read back from its byte form, whatever bytes follow it.
pub proof fn lemma_parse_message(bytes: Seq<u8>, message: Message)
    requires
        holds_at(bytes, 0, message_wire(message)),
    ensures
        parse_message(bytes) == Some(message),
{
    let form = message_wire(message);
    lemma_message_wire_len(message);
    assert(bytes[0] == form[0]);
    assert(varint_bound(3, 3) == 0x1_0000) by {
        reveal_with_fuel(varint_bound, 3);
    }
    match message {
        Message::CFG(request) => {
            lemma_read_small(bytes, 0, 0);
            assert(bytes[1] == form[1]);
            assert(bytes[2] == form[2]);
            lemma_read_small(bytes, 1, request.tag());
            crate::cfg::lemma_cfg_parts(request);
            if request.tag() != 0 {
                lemma_read_small(bytes, 2, flag_byte(request.flag()));
            }
        },
        Message::RQR(word) => {
            lemma_read_small(bytes, 0, 1);
            lemma_holds_at_split(bytes, 0, seq![1u8], varint(word as nat));
            lemma_read_varint(bytes, 1, 3, 3, word as nat);
        },
        Message::B16(sel, mem) => {
            lemma_read_small(bytes, 0, 2);
            let head = seq![2u8, flag_byte(sel.flag())];
            lemma_holds_at_split(bytes, 0, head, words_wire(mem@));
            assert(bytes[1] == head[1]);
            lemma_read_small(bytes, 1, flag_byte(sel.flag()));
            lemma_read_words(bytes, 2, mem@);
            assert(frame16(mem@).data =~= mem.data);
        },
        Message::B32(sel, mem) => {
            lemma_read_small(bytes, 0, 3);
            let head = seq![3u8, flag_byte(sel.flag())];
            lemma_holds_at_split(bytes, 0, head, words_wire(mem@));
            assert(bytes[1] == head[1]);
            lemma_read_small(bytes, 1, flag_byte(sel.flag()));
            lemma_read_words(bytes, 2, mem@);
            assert(frame32(mem@).data =~= mem.data);
        },
        Message::RST => {
            lemma_read_small(bytes, 0, 4);
        },
        Message::ERR(tag) => {
            lemma_read_small(bytes, 0, 5);
            assert(bytes[1] == form[1]);
        },
    }
}

proof fn lemma_bound_positive(limit: nat, top: int)
    requires
        0 <= top,
    ensures
        varint_bound(limit, top) >= top + 1,
    decreases limit,
{
    if limit > 1 {
        lemma_bound_positive((limit - 1) as nat, top);
    }
}

fn put_varint(out: &mut Vec<u8>, value: u16)
    ensures
        final(out)@ == old(out)@ + varint(value as nat),
{
    let mut rest: u16 = value;
    while rest >= 128
        invariant
            out@ + varint(rest as nat) == old(out)@ + varint(value as nat),
        decreases rest,
    {
        let ghost before = out@;
        let digit: u8 = (rest % 128 + 128) as u8;
        out.push(digit);
        proof {
            let shorter = varint((rest / 128) as nat);
            assert(varint(rest as nat) =~= seq![digit] + shorter);
            assert(before + (seq![digit] + shorter) =~= before.push(digit) + shorter);
        }
        rest = rest / 128;
    }
    let ghost before = out@;
    out.push(rest as u8);
    assert(before + varint(rest as nat) =~= before.push(rest as u8));
}

fn put_words(out: &mut Vec<u8>, words: &[u16])
    ensures
        final(out)@ == old(out)@ + words_wire(words@),
{
    let mut i: usize = 0;
    assert(words@.take(0) =~= Seq::<u16>::empty());
    assert(out@ =~= old(out)@ + words_wire(words@.take(0)));
    while i < words.len()
        invariant
            i <= words@.len(),
            out@ == old(out)@ + words_wire(words@.take(i as int)),
        decreases words@.len() - i,
    {
        let ghost before = out@;
        put_varint(out, words[i]);
        proof {
            let done = words@.take(i as int);
            lemma_words_wire_push(done, words@[i as int]);
            assert(done.push(words@[i as int]) =~= words@.take(i + 1));
            assert(old(out)@ + words_wire(done) + varint(words@[i as int] as nat) =~= old(out)@
                + (words_wire(done) + varint(words@[i as int] as nat)));
        }
        i += 1;
    }
    assert(words@.take(words@.len() as int) =~= words@);
}

fn take_varint(bytes: &[u8], at: usize, limit: u8, top: u8) -> (found: Option<(u32, usize)>)
    requires
        top < 128,
        varint_bound(limit as nat, top as int) <= 0x1_0000_0000,
    ensures
        match found {
            Some((value, next)) => {
                &&& read_varint(bytes@, at as int, limit as nat, top as int) == Some(
                    (value as int, next as int),
                )
                &&& value < varint_bound(limit as nat, top as int)
                &&& at < next <= bytes@.len()
            },
            None => read_varint(bytes@, at as int, limit as nat, top as int) is None,
        },
    decreases limit,
{
    if limit == 0 || at >= bytes.len() {
        return None;
    }
    let byte: u8 = bytes[at];
    proof {
        lemma_bound_positive((limit - 1) as nat, top as int);
    }
    if byte < 128 {
        if limit == 1 && byte > top {
            None
        } else {
            Some((byte as u32, at + 1))
        }
    } else {
        match take_varint(bytes, at + 1, limit - 1, top) {
            Some((rest, next)) => Some(((byte - 128) as u32 + 128 * rest, next)),
            None => None,
        }
    }
}

fn take_u16(bytes: &[u8], at: usize) -> (found: Option<(u16, usize)>)
    ensures
        match found {
            Some((word, next)) => read_u16(bytes@, at as int) == Some((word as int, next as int))
                && at < next <= bytes@.len(),
            None => read_u16(bytes@, at as int) is None,
        },
{
    assert(varint_bound(3, 3) == 0x1_0000) by {
        reveal_with_fuel(varint_bound, 3);
    }
    match take_varint(bytes, at, 3, 3) {
        Some((value, next)) => Some((value as u16, next)),
        None => None,
    }
}

fn take_index(bytes: &[u8], at: usize) -> (found: Option<(u32, usize)>)
    ensures
        match found {
            Some((index, next)) => read_index(bytes@, at as int) == Some(
                (index as int, next as int),
            ) && at < next <= bytes@.len(),
            None => read_index(bytes@, at as int) is None,
        },
{
    assert(varint_bound(5, 15) == 0x1_0000_0000) by {
        reveal_with_fuel(varint_bound, 5);
    }
    take_varint(bytes, at, 5, 15)
}

fn take_flag(bytes: &[u8], at: usize) -> (found: Option<(bool, usize)>)
    ensures
        match found {
            Some((flag, next)) => read_flag(bytes@, at as int) == Some((flag, next as int)) && at
                < next <= bytes@.len(),
            None => read_flag(bytes@, at as int) is None,
        },
{
    match take_index(bytes, at) {
        Some((index, next)) => {
            if index == 0 {
                Some((false, next))
            } else if index == 1 {
                Some((true, next))
            } else {
                None
            }
        },
        None => None,
    }
}

fn take_bool(bytes: &[u8], at: usize) -> (found: Option<(bool, usize)>)
    ensures
        match found {
            Some((flag, next)) => read_bool(bytes@, at as int) == Some((flag, next as int)) && at
                < next <= bytes@.len(),
            None => read_bool(bytes@, at as int) is None,
        },
{
    if at >= bytes.len() {
        None
    } else if bytes[at] == 0 {
        Some((false, at + 1))
    } else if bytes[at] == 1 {
        Some((true, at + 1))
    } else {
        None
    }
}

/// `rest` with `done` put in front, where there is a rest.
spec fn after(done: Seq<u16>, rest: Option<Seq<u16>>) -> Option<Seq<u16>> {
    match rest {
        Some(words) => Some(done + words),
        None => None,
    }
}

fn take_words(bytes: &[u8], at: usize, count: usize) -> (found: Option<Vec<u16>>)
    ensures
        match found {
            Some(words) => read_words(bytes@, at as int, count as nat) == Some(words@)
                && words@.len() == count,
            None => read_words(bytes@, at as int, count as nat) is None,
        },
{
    let mut words: Vec<u16> = Vec::new();
    let mut next: usize = at;
    let mut i: usize = 0;
    proof {
        let all = read_words(bytes@, at as int, count as nat);
        if all is Some {
            assert(Seq::<u16>::empty() + all->0 =~= all->0);
        }
    }
    while i < count
        invariant
            i <= count,
            words@.len() == i,
            read_words(bytes@, at as int, count as nat) == after(
                words@,
                read_words(bytes@, next as int, (count - i) as nat),
            ),
        decreases count - i,
    {
        let ghost done = words@;
        match take_u16(bytes, next) {
            Some((word, following)) => {
                proof {
                    let rest = read_words(bytes@, following as int, (count - i - 1) as nat);
                    if rest is Some {
                        assert(done + (seq![word] + rest->0) =~= done.push(word) + rest->0);
                    }
                }
                words.push(word);
                next = following;
            },
            None => {
                return None;
            },
        }
        i += 1;
    }
    assert(words@ + Seq::<u16>::empty() =~= words@);
    Some(words)
}

fn take_cfg(bytes: &[u8], at: usize) -> (found: Option<CFG>)
    ensures
        found == read_cfg(bytes@, at as int),
{
    match take_index(bytes, at) {
        Some((tag, next)) => {
            if tag == 0 {
                match take_bool(bytes, next) {
                    Some((flag, _)) => CFG::from_parts(0, flag),
                    None => None,
                }
            } else if tag < 8 {
                match take_flag(bytes, next) {
                    Some((flag, _)) => CFG::from_parts(tag as u8, flag),
                    None => None,
                }
            } else {
                None
            }
        },
        None => None,
    }
}

fn flag_to_byte(flag: bool) -> (byte: u8)
    ensures
        byte == flag_byte(flag),
{
    if flag {
        1
    } else {
        0
    }
}

impl Message {
    /// Writes the message in its byte form.
    pub fn to_bytes(&self) -> (bytes: Vec<u8>)
        ensures
            bytes@ == message_wire(*self),
            1 <= bytes@.len() <= MAX_WIRE_LEN,
    {
        proof {
            lemma_message_wire_len(*self);
        }
        let mut bytes: Vec<u8> = Vec::new();
        match self {
            Message::CFG(request) => {
                bytes.push(0);
                bytes.push(request.tag_byte());
                bytes.push(flag_to_byte(request.flag_bit()));
                assert(bytes@ =~= seq![0u8] + cfg_wire(*request));
            },
            Message::RQR(word) => {
                bytes.push(1);
                put_varint(&mut bytes, *word);
                assert(bytes@ =~= seq![1u8] + varint(*word as nat));
            },
            Message::B16(sel, mem) => {
                bytes.push(2);
                bytes.push(flag_to_byte(sel.is_set()));
                assert(bytes@ =~= seq![2u8, flag_byte(sel.flag())]);
                put_words(&mut bytes, mem.data.as_slice());
            },
            Message::B32(sel, mem) => {
                bytes.push(3);
                bytes.push(flag_to_byte(sel.is_set()));
                assert(bytes@ =~= seq![3u8, flag_byte(sel.flag())]);
                put_words(&mut bytes, mem.data.as_slice());
            },
            Message::RST => {
                bytes.push(4);
                assert(bytes@ =~= seq![4u8]);
            },
            Message::ERR(tag) => {
                bytes.push(5);
                bytes.push(*tag);
                assert(bytes@ =~= seq![5u8, *tag]);
            },
        }
        bytes
    }

    /// Reads the message that `bytes` starts with. Bytes after a complete
    /// message are ignored; where the bytes start with no message, there is
    /// none.
    pub fn from_bytes(bytes: &[u8]) -> (found: Option<Message>)
        ensures
            found == parse_message(bytes@),
    {
        match take_index(bytes, 0) {
            Some((tag, at)) => {
                if tag == 0 {
                    match take_cfg(bytes, at) {
                        Some(request) => Some(Message::CFG(request)),
                        None => None,
                    }
                } else if tag == 1 {
                    match take_u16(bytes, at) {
                        Some((word, _)) => Some(Message::RQR(word)),
                        None => None,
                    }
                } else if tag == 2 {
                    match take_flag(bytes, at) {
                        Some((flag, next)) => match take_words(bytes, next, 10) {
                            Some(w) => Some(
                                Message::B16(
                                    BurstSel::from_flag(flag),
                                    BurstMemory16 {
                                        data: [
                                            w[0],
                                            w[1],
                                            w[2],
                                            w[3],
                                            w[4],
                                            w[5],
                                            w[6],
                                            w[7],
                                            w[8],
                                            w[9],
                                        ],
                                    },
                                ),
                            ),
                            None => None,
                        },
                        None => None,
                    }
                } else if tag == 3 {
                    match take_flag(bytes, at) {
                        Some((flag, next)) => match take_words(bytes, next, 16) {
                            Some(w) => Some(
                                Message::B32(
                                    BurstSel::from_flag(flag),
                                    BurstMemory32 {
                                        data: [
                                            w[0],
                                            w[1],
                                            w[2],
                                            w[3],
                                            w[4],
                                            w[5],
                                            w[6],
                                            w[7],
                                            w[8],
                                            w[9],
                                            w[10],
                                            w[11],
                                            w[12],
                                            w[13],
                                            w[14],
                                            w[15],
                                        ],
                                    },
                                ),
                            ),
                            None => None,
                        },
                        None => None,
                    }
                } else if tag == 4 {
                    Some(Message::RST)
                } else if tag == 5 {
                    if at < bytes.len() {
                        Some(Message::ERR(bytes[at]))
                    } else {
                        None
                    }
                } else {
                    None
                }
            },
            None => None,
        }
    }
}


} // verus!
