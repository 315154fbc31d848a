//! Decoded burst samples. Every reading is held exactly, as a count and the
//! scale of the sensor model, so that nothing is rounded before a consumer
//! asks for it.

use vstd::prelude::*;
use crate::burstmem::field_q15;
use crate::burstmem::frame_corrupted;
use crate::burstmem::frame_data_cntr;
use crate::burstmem::frame_temp;
use crate::burstmem::BurstMemory;
use crate::diagstat::DiagStat;
use crate::version::AdisVersion;
use crate::version::Scale;

verus! {

/// A physical quantity held exactly: `raw` is the reading in units of 2^-15
/// of a count, and one count is worth `scale`. Its value is
/// `raw * scale.num / (2^15 * scale.den)`.
#[derive(Debug, Clone, Copy, PartialEq, Eq, Structural)]
pub struct Quantity {
    pub raw: i32,
    pub scale: Scale,
}

impl Quantity {
    /// Numerator of the value.
    pub open spec fn numerator(self) -> int {
        self.raw * self.scale.num
    }

    /// Denominator of the value.
    pub open spec fn denominator(self) -> int {
        0x8000 * self.scale.den
    }

    /// Numerator of the value.
    pub fn numer(&self) -> (n: i64)
        ensures
            n == self.numerator(),
    {
        let raw: i64 = self.raw as i64;
        let num: i64 = self.scale.num as i64;
        assert(-0x8000_0000 * 0xFFFF_FFFF <= raw * num <= 0x7FFF_FFFF * 0xFFFF_FFFF)
            by (nonlinear_arith)
            requires
                -0x8000_0000 <= raw <= 0x7FFF_FFFF,
                0 <= num <= 0xFFFF_FFFF,
        ;
        raw * num
    }

    /// Denominator of the value.
    pub fn denom(&self) -> (d: u64)
        ensures
            d == self.denominator(),
    {
        0x8000 * (self.scale.den as u64)
    }
}

/// The six data fields of a sample, by what the burst was set to carry.
#[derive(Debug, Clone, Copy, PartialEq, Eq, Structural)]
pub enum Sel {
    /// Angular rates in degrees per second, accelerations in metres per
    /// second squared.
    Sel0 {
        x_gyro: Quantity,
        y_gyro: Quantity,
        z_gyro: Quantity,
        x_accl: Quantity,
        y_accl: Quantity,
        z_accl: Quantity,
    },
    /// Delta angles in degrees, delta velocities in metres per second.
    Sel1 {
        x_deltang: Quantity,
        y_deltang: Quantity,
        z_deltang: Quantity,
        x_deltvel: Quantity,
        y_deltvel: Quantity,
        z_deltvel: Quantity,
    },
}

/// One decoded burst sample.
#[derive(Debug, Clone, Copy, PartialEq, Eq, Structural)]
pub struct BurstData {
    pub diagstat: DiagStat,
    pub data: Sel,
    /// Temperature in degrees Celsius.
    pub temp: Quantity,
    pub data_cntr: u16,
    /// Set when the checksum of the frame did not hold. The other fields are
    /// decoded all the same.
    pub corrupted: bool,
}

impl BurstData {
    /// The temperature of a frame, scaled for `version`.
    pub open spec fn temp_of(frame: Seq<u16>, version: AdisVersion) -> Quantity {
        Quantity { raw: (frame_temp(frame) * 0x8000) as i32, scale: version.temp_scale() }
    }

    /// Data field `index` of a frame with the given scale.
    pub open spec fn field_of(frame: Seq<u16>, data_size: int, index: int, scale: Scale)
        -> Quantity {
        Quantity { raw: field_q15(frame, data_size, index) as i32, scale }
    }

    /// The sample that a frame holds when its fields are rates and
    /// accelerations.
    pub open spec fn sel0(frame: Seq<u16>, data_size: int, version: AdisVersion) -> BurstData {
        BurstData {
            diagstat: DiagStat::decoded(frame[0]),
            data: Sel::Sel0 {
                x_gyro: Self::field_of(frame, data_size, 0, version.gyro_scale()),
                y_gyro: Self::field_of(frame, data_size, 1, version.gyro_scale()),
                z_gyro: Self::field_of(frame, data_size, 2, version.gyro_scale()),
                x_accl: Self::field_of(frame, data_size, 3, version.accl_scale()),
                y_accl: Self::field_of(frame, data_size, 4, version.accl_scale()),
                z_accl: Self::field_of(frame, data_size, 5, version.accl_scale()),
            },
            temp: Self::temp_of(frame, version),
            data_cntr: frame_data_cntr(frame),
            corrupted: frame_corrupted(frame),
        }
    }

    /// The sample that a frame holds when its fields are delta angles and
    /// delta velocities.
    pub open spec fn sel1(frame: Seq<u16>, data_size: int, version: AdisVersion) -> BurstData {
        BurstData {
            diagstat: DiagStat::decoded(frame[0]),
            data: Sel::Sel1 {
                x_deltang: Self::field_of(frame, data_size, 0, version.deltang_scale()),
                y_deltang: Self::field_of(frame, data_size, 1, version.deltang_scale()),
                z_deltang: Self::field_of(frame, data_size, 2, version.deltang_scale()),
                x_deltvel: Self::field_of(frame, data_size, 3, version.deltvel_scale()),
                y_deltvel: Self::field_of(frame, data_size, 4, version.deltvel_scale()),
                z_deltvel: Self::field_of(frame, data_size, 5, version.deltvel_scale()),
            },
            temp: Self::temp_of(frame, version),
            data_cntr: frame_data_cntr(frame),
            corrupted: frame_corrupted(frame),
        }
    }

    /// Decodes a frame whose fields are rates and accelerations. A frame
    /// whose checksum fails is decoded like any other and marked corrupted.
    pub fn as_sel0<T: BurstMemory>(burst_mem: &T, version: &AdisVersion) -> (sample: Self)
        ensures
            sample == BurstData::sel0(burst_mem.frame(), burst_mem.data_size(), *version),
    {
        let gyro = version.gyro_constant();
        let accl = version.accl_constant();
        BurstData {
            diagstat: DiagStat::from(burst_mem.diag_stat()),
            data: Sel::Sel0 {
                x_gyro: Quantity { raw: burst_mem.xa(), scale: gyro },
                y_gyro: Quantity { raw: burst_mem.ya(), scale: gyro },
                z_gyro: Quantity { raw: burst_mem.za(), scale: gyro },
                x_accl: Quantity { raw: burst_mem.xb(), scale: accl },
                y_accl: Quantity { raw: burst_mem.yb(), scale: accl },
                z_accl: Quantity { raw: burst_mem.zb(), scale: accl },
            },
            temp: Quantity {
                raw: (burst_mem.temp() as i32) * 0x8000,
                scale: version.temp_constant(),
            },
            data_cntr: burst_mem.data_cntr(),
            corrupted: burst_mem.is_corrupted(),
        }
    }

    /// Decodes a frame whose fields are delta angles and delta velocities. A
    /// frame whose checksum fails is decoded like any other and marked
    /// corrupted.
    pub fn as_sel1<T: BurstMemory>(burst_mem: &T, version: &AdisVersion) -> (sample: Self)
        ensures
            sample == BurstData::sel1(burst_mem.frame(), burst_mem.data_size(), *version),
    {
        let deltang = version.deltang_constant();
        let deltvel = version.deltvel_constant();
        BurstData {
            diagstat: DiagStat::from(burst_mem.diag_stat()),
            data: Sel::Sel1 {
                x_deltang: Quantity { raw: burst_mem.xa(), scale: deltang },
                y_deltang: Quantity { raw: burst_mem.ya(), scale: deltang },
                z_deltang: Quantity { raw: burst_mem.za(), scale: deltang },
                x_deltvel: Quantity { raw: burst_mem.xb(), scale: deltvel },
                y_deltvel: Quantity { raw: burst_mem.yb(), scale: deltvel },
                z_deltvel: Quantity { raw: burst_mem.zb(), scale: deltvel },
            },
            temp: Quantity {
                raw: (burst_mem.temp() as i32) * 0x8000,
                scale: version.temp_constant(),
            },
            data_cntr: burst_mem.data_cntr(),
            corrupted: burst_mem.is_corrupted(),
        }
    }
}

} // verus!
