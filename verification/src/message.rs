//! The messages that host and device exchange.

use vstd::prelude::*;
use crate::burstmem::BurstMemory16;
use crate::burstmem::BurstMemory32;
use crate::cfg::BurstSel;
use crate::cfg::CFG;

verus! {

/// One message of the link. Requests and their acknowledgements have the
/// same shape: the device acknowledges by sending the request back.
#[allow(clippy::upper_case_acronyms)]
#[derive(Debug, Clone, Copy)]
pub enum Message {
    /// Change of one configuration field, or its acknowledgement.
    CFG(CFG),
    /// A raw register word: the bus word to send, or the word that came back.
    RQR(u16),
    /// A burst frame with 16-bit fields and what its fields hold.
    B16(BurstSel, BurstMemory16),
    /// A burst frame with 32-bit fields and what its fields hold.
    B32(BurstSel, BurstMemory32),
    /// Restart of the sensor, or its acknowledgement.
    RST,
    /// An error with its tag.
    ERR(u8),
}

impl PartialEq for Message {
    fn eq(&self, other: &Self) -> (same: bool) {
        match (*self, *other) {
            (Message::CFG(a), Message::CFG(b)) => a == b,
            (Message::RQR(a), Message::RQR(b)) => a == b,
            (Message::B16(s, a), Message::B16(t, b)) => s == t && a == b,
            (Message::B32(s, a), Message::B32(t, b)) => s == t && a == b,
            (Message::RST, Message::RST) => true,
            (Message::ERR(a), Message::ERR(b)) => a == b,
            _ => false,
        }
    }
}

impl Eq for Message {

}

impl vstd::std_specs::cmp::PartialEqSpecImpl for Message {
    open spec fn obeys_eq_spec() -> bool {
        true
    }

    open spec fn eq_spec(&self, other: &Self) -> bool {
        *self == *other
    }
}

} // verus!
