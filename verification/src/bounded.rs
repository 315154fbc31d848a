//! The fixed-capacity vectors of the `heapless` crate that the sessions
//! hand out: batches of at most eight messages or samples, and the packet of
//! at most 64 bytes that the device sends in one go. Verus does not look
//! inside them; what they hold is named here, and every call into the crate
//! goes through one of the functions below.

use vstd::prelude::*;
use crate::burst::BurstData;
use crate::message::Message;

verus! {

/// Most bytes in one outgoing packet of the device.
pub const SERIAL_PACKET_SIZE: usize = 64;

/// Makes `heapless::Vec` known as a type whose inside is not looked at.
#[verifier::external_type_specification]
#[verifier::external_body]
#[verifier::reject_recursive_types(T)]
pub struct ExHeaplessVec<T, const N: usize>(heapless::Vec<T, N>);

/// The messages that a batch holds, oldest first.
pub uninterp spec fn batch_items(batch: heapless::Vec<Message, 8>) -> Seq<Message>;

/// The samples that a batch holds, oldest first.
pub uninterp spec fn sample_items(batch: heapless::Vec<BurstData, 8>) -> Seq<BurstData>;

/// The bytes that a packet holds.
pub uninterp spec fn packet_bytes(packet: heapless::Vec<u8, 64>) -> Seq<u8>;

/// Calls `heapless::Vec::new`: a batch that holds nothing.
#[verifier::external_body]
pub(crate) fn batch_new() -> (batch: heapless::Vec<Message, 8>)
    ensures
        batch_items(batch) == Seq::<Message>::empty(),
{
    heapless::Vec::new()
}

/// Calls `heapless::Vec::push`: the message goes to the end of the batch
/// if the batch holds fewer than eight, else the batch stays as it is.
/// Returns whether the message went in.
#[verifier::external_body]
pub(crate) fn batch_push(batch: &mut heapless::Vec<Message, 8>, message: Message) -> (stored: bool)
    ensures
        stored == (batch_items(*old(batch)).len() < 8),
        batch_items(*final(batch)) == (if stored {
            batch_items(*old(batch)).push(message)
        } else {
            batch_items(*old(batch))
        }),
{
    batch.push(message).is_ok()
}

/// Calls `len` on the slice of the batch: the number of messages, never
/// above eight.
#[verifier::external_body]
pub(crate) fn batch_len(batch: &heapless::Vec<Message, 8>) -> (count: usize)
    ensures
        count == batch_items(*batch).len(),
        count <= 8,
{
    batch.len()
}

/// Indexes the slice of the batch: the message at `index`.
#[verifier::external_body]
pub(crate) fn batch_get(batch: &heapless::Vec<Message, 8>, index: usize) -> (message: Message)
    requires
        index < batch_items(*batch).len(),
    ensures
        message == batch_items(*batch)[index as int],
{
    batch[index]
}

/// Calls `heapless::Vec::pop`: takes the last message off the batch, if
/// there is one.
#[verifier::external_body]
pub(crate) fn batch_pop(batch: &mut heapless::Vec<Message, 8>) -> (last: Option<Message>)
    ensures
        batch_items(*old(batch)).len() == 0 ==> last is None && batch_items(*final(batch))
            == batch_items(*old(batch)),
        batch_items(*old(batch)).len() > 0 ==> last == Some(batch_items(*old(batch)).last())
            && batch_items(*final(batch)) == batch_items(*old(batch)).drop_last(),
{
    batch.pop()
}

/// Calls `heapless::Vec::new`: a batch that holds nothing.
#[verifier::external_body]
pub(crate) fn samples_new() -> (batch: heapless::Vec<BurstData, 8>)
    ensures
        sample_items(batch) == Seq::<BurstData>::empty(),
{
    heapless::Vec::new()
}

/// Calls `heapless::Vec::push`: the sample goes to the end of the batch if
/// the batch holds fewer than eight, else the batch stays as it is. Returns
/// whether the sample went in.
#[verifier::external_body]
pub(crate) fn samples_push(batch: &mut heapless::Vec<BurstData, 8>, sample: BurstData) -> (stored:
    bool)
    ensures
        stored == (sample_items(*old(batch)).len() < 8),
        sample_items(*final(batch)) == (if stored {
            sample_items(*old(batch)).push(sample)
        } else {
            sample_items(*old(batch))
        }),
{
    batch.push(sample).is_ok()
}

/// Calls `heapless::Vec::new`: a packet that holds nothing.
#[verifier::external_body]
pub(crate) fn packet_new() -> (packet: heapless::Vec<u8, 64>)
    ensures
        packet_bytes(packet) == Seq::<u8>::empty(),
{
    heapless::Vec::new()
}

/// Calls `heapless::Vec::extend_from_slice`: the bytes go to the end of
/// the packet if all of them fit in its 64 bytes, else the packet stays as
/// it is. Returns whether they went in.
#[verifier::external_body]
pub(crate) fn packet_extend(packet: &mut heapless::Vec<u8, 64>, bytes: &[u8]) -> (stored: bool)
    ensures
        stored == (packet_bytes(*old(packet)).len() + bytes@.len() <= 64),
        packet_bytes(*final(packet)) == (if stored {
            packet_bytes(*old(packet)) + bytes@
        } else {
            packet_bytes(*old(packet))
        }),
{
    packet.extend_from_slice(bytes).is_ok()
}

} // verus!
