//! Register addresses of the sensor and the bus words that read and write them.

use vstd::prelude::*;

verus! {

pub const DIAG_STAT: u8 = 0x00;

pub const X_GYRO_LOW: u8 = 0x04;

pub const X_GYRO_OUT: u8 = 0x06;

pub const Y_GYRO_LOW: u8 = 0x08;

pub const Y_GYRO_OUT: u8 = 0x0A;

pub const Z_GYRO_LOW: u8 = 0x0C;

pub const Z_GYRO_OUT: u8 = 0x0E;

pub const X_ACCL_LOW: u8 = 0x10;

pub const X_ACCL_OUT: u8 = 0x12;

pub const Y_ACCL_LOW: u8 = 0x14;

pub const Y_ACCL_OUT: u8 = 0x16;

pub const Z_ACCL_LOW: u8 = 0x18;

pub const Z_ACCL_OUT: u8 = 0x1A;

pub const TEMP_OUT: u8 = 0x1C;

pub const TIME_STAMP: u8 = 0x1E;

pub const DATA_CNTR: u8 = 0x22;

pub const X_DELTANG_LOW: u8 = 0x24;

pub const X_DELTANG_OUT: u8 = 0x26;

pub const Y_DELTANG_LOW: u8 = 0x28;

pub const Y_DELTANG_OUT: u8 = 0x2A;

pub const Z_DELTANG_LOW: u8 = 0x2C;

pub const Z_DELTANG_OUT: u8 = 0x2E;

pub const X_DELTVEL_LOW: u8 = 0x30;

pub const X_DELTVEL_OUT: u8 = 0x32;

pub const Y_DELTVEL_LOW: u8 = 0x34;

pub const Y_DELTVEL_OUT: u8 = 0x36;

pub const Z_DELTVEL_LOW: u8 = 0x38;

pub const Z_DELTVEL_OUT: u8 = 0x3A;

pub const XG_BIAS_LOW: u8 = 0x40;

pub const XG_BIAS_HIGH: u8 = 0x42;

pub const YG_BIAS_LOW: u8 = 0x44;

pub const YG_BIAS_HIGH: u8 = 0x46;

pub const ZG_BIAS_LOW: u8 = 0x48;

pub const ZG_BIAS_HIGH: u8 = 0x4A;

pub const XA_BIAS_LOW: u8 = 0x4C;

pub const XA_BIAS_HIGH: u8 = 0x4E;

pub const YA_BIAS_LOW: u8 = 0x50;

pub const YA_BIAS_HIGH: u8 = 0x52;

pub const ZA_BIAS_LOW: u8 = 0x54;

pub const ZA_BIAS_HIGH: u8 = 0x56;

pub const FILT_CTRL: u8 = 0x5C;

pub const RANG_MDL: u8 = 0x5E;

pub const MSC_CTRL: u8 = 0x60;

pub const UP_SCALE: u8 = 0x62;

pub const DEC_RATE: u8 = 0x64;

pub const GLOB_CMD: u8 = 0x68;

pub const FIRM_REV: u8 = 0x6C;

pub const FIRM_DM: u8 = 0x6E;

pub const FIRM_Y: u8 = 0x70;

pub const PROD_ID: u8 = 0x72;

pub const SERIAL_NUM: u8 = 0x74;

pub const USER_SCR1: u8 = 0x76;

pub const USER_SCR2: u8 = 0x78;

pub const USER_SCR3: u8 = 0x7A;

pub const FLSHCNT_LOW: u8 = 0x7C;

pub const FLSHCNT_HIGH: u8 = 0x7E;

/// The bus word that asks for the register at `address`: the address in the
/// high byte, nothing in the low byte.
pub open spec fn request_word(address: u8) -> u16 {
    (address as u16) << 8
}

/// First word of a register write: the low data byte, addressed to `address`,
/// with the write flag in the top bit.
pub open spec fn write_low_word(address: u8, data: u16) -> u16 {
    ((address as u16) << 8) | (data & 0xFF) | 0x8000
}

/// Second word of a register write: the high data byte, addressed to the
/// register byte after `address`, with the write flag in the top bit.
pub open spec fn write_high_word(address: u8, data: u16) -> u16 {
    ((((address as u16) + 1) as u16) << 8) | (data >> 8) | 0x8000
}

/// Builds the single-word read request for the register at `address`.
pub fn request(address: u8) -> (word: u16)
    ensures
        word == request_word(address),
        word == address * 256,
{
    let wide: u16 = address as u16;
    assert(wide << 8 == wide * 256) by (bit_vector)
        requires
            wide < 256,
    ;
    wide << 8
}

/// Builds the two-word write sequence that stores `data` in the register at
/// `address`: low byte first, then high byte.
pub fn to_write(address: u8, data: u16) -> (words: [u16; 2])
    ensures
        words[0] == write_low_word(address, data),
        words[1] == write_high_word(address, data),
{
    let u0: u16 = (address as u16) << 8 | (data & 0xFF) | 0x8000;
    let u1: u16 = ((address as u16) + 1) << 8 | (data >> 8) | 0x8000;
    [u0, u1]
}

/// For every address of the register table (below `0x7F`) the write words are
/// plain sums: the write flag, the byte address times 256, and one data byte.
pub proof fn lemma_write_words_arith(address: u8, data: u16)
    requires
        address < 0x7F,
    ensures
        write_low_word(address, data) == 0x8000 + address * 256 + data % 256,
        write_high_word(address, data) == 0x8000 + (address + 1) * 256 + data / 256,
{
    let a: u16 = address as u16;
    let b: u16 = (address + 1) as u16;
    assert(((a << 8) | (data & 0xFF) | 0x8000) == 0x8000 + a * 256 + data % 256) by (bit_vector)
        requires
            a < 0x7F,
    ;
    assert(((b << 8) | (data >> 8) | 0x8000) == 0x8000 + b * 256 + data / 256) by (bit_vector)
        requires
            b < 0x80,
    ;
}

} // verus!
