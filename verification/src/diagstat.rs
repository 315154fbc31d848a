//! The diagnostic status word: ten independent error flags.

use vstd::prelude::*;

verus! {

/// The bits of the status word that carry a flag; the others are reserved.
pub const FLAG_MASK: u16 = 0x07FE;

/// Decoded diagnostic status word.
#[derive(Debug, Clone, Copy, PartialEq, Eq, Hash, Structural)]
pub struct DiagStat {
    /// Accelerometer self-test failure (bit 10).
    pub accl_fail: bool,
    /// Self-test failure of the second gyroscope (bit 9).
    pub gyro2_fail: bool,
    /// Self-test failure of the first gyroscope (bit 8).
    pub gyro1_fail: bool,
    /// The internal clock is out of synchronisation (bit 7).
    pub clock_err: bool,
    /// The flash memory test failed (bit 6).
    pub flash_err: bool,
    /// At least one sensor failed its self-test (bit 5).
    pub sensor_fail: bool,
    /// The supply is too low and the sensor stands by (bit 4).
    pub standby_mode: bool,
    /// A bus transaction was malformed (bit 3).
    pub spi_err: bool,
    /// The last flash update failed (bit 2).
    pub flash_update_err: bool,
    /// The data path was overrun (bit 1).
    pub data_path_overrun: bool,
}

/// `mask` when `flag` is set, no bit otherwise.
pub open spec fn flag_word(flag: bool, mask: u16) -> u16 {
    if flag {
        mask
    } else {
        0
    }
}

fn flag_bits(flag: bool, mask: u16) -> (word: u16)
    ensures
        word == flag_word(flag, mask),
{
    if flag {
        mask
    } else {
        0
    }
}

impl DiagStat {
    /// The flags that a status word holds: each one is the test of its own bit.
    pub open spec fn decoded(val: u16) -> DiagStat {
        DiagStat {
            accl_fail: val & 0x0400 != 0,
            gyro2_fail: val & 0x0200 != 0,
            gyro1_fail: val & 0x0100 != 0,
            clock_err: val & 0x0080 != 0,
            flash_err: val & 0x0040 != 0,
            sensor_fail: val & 0x0020 != 0,
            standby_mode: val & 0x0010 != 0,
            spi_err: val & 0x0008 != 0,
            flash_update_err: val & 0x0004 != 0,
            data_path_overrun: val & 0x0002 != 0,
        }
    }

    /// The status word that holds exactly the flags of `self`; reserved bits
    /// are zero.
    pub open spec fn encoded(self) -> u16 {
        flag_word(self.accl_fail, 0x0400)
            | flag_word(self.gyro2_fail, 0x0200)
            | flag_word(self.gyro1_fail, 0x0100)
            | flag_word(self.clock_err, 0x0080)
            | flag_word(self.flash_err, 0x0040)
            | flag_word(self.sensor_fail, 0x0020)
            | flag_word(self.standby_mode, 0x0010)
            | flag_word(self.spi_err, 0x0008)
            | flag_word(self.flash_update_err, 0x0004)
            | flag_word(self.data_path_overrun, 0x0002)
    }
}

impl From<u16> for DiagStat {
    /// Tests each flag's bit of the status word.
    fn from(val: u16) -> (stat: Self) {
        DiagStat {
            accl_fail: val & 0x0400 != 0,
            gyro2_fail: val & 0x0200 != 0,
            gyro1_fail: val & 0x0100 != 0,
            clock_err: val & 0x0080 != 0,
            flash_err: val & 0x0040 != 0,
            sensor_fail: val & 0x0020 != 0,
            standby_mode: val & 0x0010 != 0,
            spi_err: val & 0x0008 != 0,
            flash_update_err: val & 0x0004 != 0,
            data_path_overrun: val & 0x0002 != 0,
        }
    }
}

impl vstd::std_specs::convert::FromSpecImpl<u16> for DiagStat {
    open spec fn obeys_from_spec() -> bool {
        true
    }

    open spec fn from_spec(val: u16) -> Self {
        DiagStat::decoded(val)
    }
}

impl From<DiagStat> for u16 {
    /// Packs the flags back into their bits, for consumers that want the
    /// status as one word.
    fn from(stat: DiagStat) -> (val: u16) {
        flag_bits(stat.accl_fail, 0x0400)
            | flag_bits(stat.gyro2_fail, 0x0200)
            | flag_bits(stat.gyro1_fail, 0x0100)
            | flag_bits(stat.clock_err, 0x0080)
            | flag_bits(stat.flash_err, 0x0040)
            | flag_bits(stat.sensor_fail, 0x0020)
            | flag_bits(stat.standby_mode, 0x0010)
            | flag_bits(stat.spi_err, 0x0008)
            | flag_bits(stat.flash_update_err, 0x0004)
            | flag_bits(stat.data_path_overrun, 0x0002)
    }
}

impl vstd::std_specs::convert::FromSpecImpl<DiagStat> for u16 {
    open spec fn obeys_from_spec() -> bool {
        true
    }

    open spec fn from_spec(stat: DiagStat) -> u16 {
        stat.encoded()
    }
}

/// Packing flags into a word and decoding that word gives the flags back.
pub proof fn lemma_decode_encode(stat: DiagStat)
    ensures
        DiagStat::decoded(stat.encoded()) == stat,
{
    let w10 = flag_word(stat.accl_fail, 0x0400);
    let w9 = flag_word(stat.gyro2_fail, 0x0200);
    let w8 = flag_word(stat.gyro1_fail, 0x0100);
    let w7 = flag_word(stat.clock_err, 0x0080);
    let w6 = flag_word(stat.flash_err, 0x0040);
    let w5 = flag_word(stat.sensor_fail, 0x0020);
    let w4 = flag_word(stat.standby_mode, 0x0010);
    let w3 = flag_word(stat.spi_err, 0x0008);
    let w2 = flag_word(stat.flash_update_err, 0x0004);
    let w1 = flag_word(stat.data_path_overrun, 0x0002);
    let t = w10 | w9 | w8 | w7 | w6 | w5 | w4 | w3 | w2 | w1;
    assert({
        &&& (t & 0x0400 != 0) == (w10 != 0)
        &&& (t & 0x0200 != 0) == (w9 != 0)
        &&& (t & 0x0100 != 0) == (w8 != 0)
        &&& (t & 0x0080 != 0) == (w7 != 0)
        &&& (t & 0x0040 != 0) == (w6 != 0)
        &&& (t & 0x0020 != 0) == (w5 != 0)
        &&& (t & 0x0010 != 0) == (w4 != 0)
        &&& (t & 0x0008 != 0) == (w3 != 0)
        &&& (t & 0x0004 != 0) == (w2 != 0)
        &&& (t & 0x0002 != 0) == (w1 != 0)
    }) by (bit_vector)
        requires
            t == w10 | w9 | w8 | w7 | w6 | w5 | w4 | w3 | w2 | w1,
            w10 == 0 || w10 == 0x0400,
            w9 == 0 || w9 == 0x0200,
            w8 == 0 || w8 == 0x0100,
            w7 == 0 || w7 == 0x0080,
            w6 == 0 || w6 == 0x0040,
            w5 == 0 || w5 == 0x0020,
            w4 == 0 || w4 == 0x0010,
            w3 == 0 || w3 == 0x0008,
            w2 == 0 || w2 == 0x0004,
            w1 == 0 || w1 == 0x0002,
    ;
}

/// Decoding a word and packing the flags again keeps the flag bits of the
/// word and clears the reserved ones.
pub proof fn lemma_encode_decode(val: u16)
    ensures
        DiagStat::decoded(val).encoded() == val & FLAG_MASK,
{
    let stat = DiagStat::decoded(val);
    let w10 = flag_word(stat.accl_fail, 0x0400);
    let w9 = flag_word(stat.gyro2_fail, 0x0200);
    let w8 = flag_word(stat.gyro1_fail, 0x0100);
    let w7 = flag_word(stat.clock_err, 0x0080);
    let w6 = flag_word(stat.flash_err, 0x0040);
    let w5 = flag_word(stat.sensor_fail, 0x0020);
    let w4 = flag_word(stat.standby_mode, 0x0010);
    let w3 = flag_word(stat.spi_err, 0x0008);
    let w2 = flag_word(stat.flash_update_err, 0x0004);
    let w1 = flag_word(stat.data_path_overrun, 0x0002);
    assert(w10 | w9 | w8 | w7 | w6 | w5 | w4 | w3 | w2 | w1 == val & 0x07FE) by (bit_vector)
        requires
            w10 == (if val & 0x0400 != 0 { 0x0400u16 } else { 0u16 }),
            w9 == (if val & 0x0200 != 0 { 0x0200u16 } else { 0u16 }),
            w8 == (if val & 0x0100 != 0 { 0x0100u16 } else { 0u16 }),
            w7 == (if val & 0x0080 != 0 { 0x0080u16 } else { 0u16 }),
            w6 == (if val & 0x0040 != 0 { 0x0040u16 } else { 0u16 }),
            w5 == (if val & 0x0020 != 0 { 0x0020u16 } else { 0u16 }),
            w4 == (if val & 0x0010 != 0 { 0x0010u16 } else { 0u16 }),
            w3 == (if val & 0x0008 != 0 { 0x0008u16 } else { 0u16 }),
            w2 == (if val & 0x0004 != 0 { 0x0004u16 } else { 0u16 }),
            w1 == (if val & 0x0002 != 0 { 0x0002u16 } else { 0u16 }),
    ;
}

} // verus!
