//! Configuration requests: one field of the device configuration per message.

use vstd::prelude::*;
pub use crate::msc_ctrl::Burst32;
pub use crate::msc_ctrl::BurstSel;
pub use crate::msc_ctrl::DataReadyPolarity;
pub use crate::msc_ctrl::LinearAccelerationCompensation;
pub use crate::msc_ctrl::MscCtrl;
pub use crate::msc_ctrl::PointOfPercussionAlignment;
pub use crate::msc_ctrl::SensorBandwidth;
pub use crate::msc_ctrl::SyncMode;
pub use crate::msc_ctrl::SyncPolarity;

verus! {

/// A change of one configuration field. The device answers a change that it
/// has carried out with the same value.
#[allow(clippy::upper_case_acronyms)]
#[derive(Debug, Clone, Copy, PartialEq, Eq, Structural)]
pub enum CFG {
    /// Whether the device streams burst frames.
    BurstEn(bool),
    Burst32(Burst32),
    BurstSel(BurstSel),
    LinearAccelerationCompensation(LinearAccelerationCompensation),
    PointOfPercussionAlignment(PointOfPercussionAlignment),
    SensorBandwidth(SensorBandwidth),
    SyncPolarity(SyncPolarity),
    DataReadyPolarity(DataReadyPolarity),
}

impl CFG {
    /// Position of the variant among the eight.
    pub open spec fn tag(self) -> u8 {
        match self {
            CFG::BurstEn(_) => 0,
            CFG::Burst32(_) => 1,
            CFG::BurstSel(_) => 2,
            CFG::LinearAccelerationCompensation(_) => 3,
            CFG::PointOfPercussionAlignment(_) => 4,
            CFG::SensorBandwidth(_) => 5,
            CFG::SyncPolarity(_) => 6,
            CFG::DataReadyPolarity(_) => 7,
        }
    }

    /// The requested value as one bit: the flag itself, or whether the
    /// field takes its second value.
    pub open spec fn flag(self) -> bool {
        match self {
            CFG::BurstEn(v) => v,
            CFG::Burst32(v) => v.flag(),
            CFG::BurstSel(v) => v.flag(),
            CFG::LinearAccelerationCompensation(v) => v.flag(),
            CFG::PointOfPercussionAlignment(v) => v.flag(),
            CFG::SensorBandwidth(v) => v.flag(),
            CFG::SyncPolarity(v) => v.flag(),
            CFG::DataReadyPolarity(v) => v.flag(),
        }
    }

    /// The request with the given position and bit. Positions above 7 stand
    /// for no request; they read as the last one.
    pub open spec fn with(tag: u8, flag: bool) -> CFG {
        if tag == 0 {
            CFG::BurstEn(flag)
        } else if tag == 1 {
            CFG::Burst32(Burst32::of_flag(flag))
        } else if tag == 2 {
            CFG::BurstSel(BurstSel::of_flag(flag))
        } else if tag == 3 {
            CFG::LinearAccelerationCompensation(LinearAccelerationCompensation::of_flag(flag))
        } else if tag == 4 {
            CFG::PointOfPercussionAlignment(PointOfPercussionAlignment::of_flag(flag))
        } else if tag == 5 {
            CFG::SensorBandwidth(SensorBandwidth::of_flag(flag))
        } else if tag == 6 {
            CFG::SyncPolarity(SyncPolarity::of_flag(flag))
        } else {
            CFG::DataReadyPolarity(DataReadyPolarity::of_flag(flag))
        }
    }

    /// The control register with the requested field replaced. A change of
    /// the streaming flag leaves the register as it is.
    pub open spec fn applied(self, ctrl: MscCtrl) -> MscCtrl {
        match self {
            CFG::BurstEn(_) => ctrl,
            CFG::Burst32(v) => MscCtrl { burst32: v, ..ctrl },
            CFG::BurstSel(v) => MscCtrl { burst_sel: v, ..ctrl },
            CFG::LinearAccelerationCompensation(v) => MscCtrl { lac: v, ..ctrl },
            CFG::PointOfPercussionAlignment(v) => MscCtrl { popa: v, ..ctrl },
            CFG::SensorBandwidth(v) => MscCtrl { bw: v, ..ctrl },
            CFG::SyncPolarity(v) => MscCtrl { sync_pol: v, ..ctrl },
            CFG::DataReadyPolarity(v) => MscCtrl { dr_pol: v, ..ctrl },
        }
    }

    /// Position of the variant among the eight.
    pub fn tag_byte(&self) -> (tag: u8)
        ensures
            tag == self.tag(),
            tag < 8,
    {
        match self {
            CFG::BurstEn(_) => 0,
            CFG::Burst32(_) => 1,
            CFG::BurstSel(_) => 2,
            CFG::LinearAccelerationCompensation(_) => 3,
            CFG::PointOfPercussionAlignment(_) => 4,
            CFG::SensorBandwidth(_) => 5,
            CFG::SyncPolarity(_) => 6,
            CFG::DataReadyPolarity(_) => 7,
        }
    }

    /// The requested value as one bit.
    pub fn flag_bit(&self) -> (flag: bool)
        ensures
            flag == self.flag(),
    {
        match self {
            CFG::BurstEn(v) => *v,
            CFG::Burst32(v) => v.is_set(),
            CFG::BurstSel(v) => v.is_set(),
            CFG::LinearAccelerationCompensation(v) => v.is_set(),
            CFG::PointOfPercussionAlignment(v) => v.is_set(),
            CFG::SensorBandwidth(v) => v.is_set(),
            CFG::SyncPolarity(v) => v.is_set(),
            CFG::DataReadyPolarity(v) => v.is_set(),
        }
    }

    /// The request with the given position and bit, if the position is one
    /// of the eight.
    pub fn from_parts(tag: u8, flag: bool) -> (request: Option<CFG>)
        ensures
            request == (if tag < 8 {
                Some(CFG::with(tag, flag))
            } else {
                None
            }),
    {
        if tag == 0 {
            Some(CFG::BurstEn(flag))
        } else if tag == 1 {
            Some(CFG::Burst32(Burst32::from_flag(flag)))
        } else if tag == 2 {
            Some(CFG::BurstSel(BurstSel::from_flag(flag)))
        } else if tag == 3 {
            Some(CFG::LinearAccelerationCompensation(LinearAccelerationCompensation::from_flag(flag)))
        } else if tag == 4 {
            Some(CFG::PointOfPercussionAlignment(PointOfPercussionAlignment::from_flag(flag)))
        } else if tag == 5 {
            Some(CFG::SensorBandwidth(SensorBandwidth::from_flag(flag)))
        } else if tag == 6 {
            Some(CFG::SyncPolarity(SyncPolarity::from_flag(flag)))
        } else if tag == 7 {
            Some(CFG::DataReadyPolarity(DataReadyPolarity::from_flag(flag)))
        } else {
            None
        }
    }

    /// Replaces the requested field of a control register. A change of the
    /// streaming flag leaves the register as it is.
    pub fn apply(&self, ctrl: MscCtrl) -> (changed: MscCtrl)
        ensures
            changed == self.applied(ctrl),
    {
        let mut changed = ctrl;
        match self {
            CFG::BurstEn(_) => {},
            CFG::Burst32(v) => {
                changed.burst32 = *v;
            },
            CFG::BurstSel(v) => {
                changed.burst_sel = *v;
            },
            CFG::LinearAccelerationCompensation(v) => {
                changed.lac = *v;
            },
            CFG::PointOfPercussionAlignment(v) => {
                changed.popa = *v;
            },
            CFG::SensorBandwidth(v) => {
                changed.bw = *v;
            },
            CFG::SyncPolarity(v) => {
                changed.sync_pol = *v;
            },
            CFG::DataReadyPolarity(v) => {
                changed.dr_pol = *v;
            },
        }
        changed
    }
}

/// A request is the one with its own position and bit.
pub proof fn lemma_cfg_parts(request: CFG)
    ensures
        CFG::with(request.tag(), request.flag()) == request,
        request.tag() < 8,
{
}

} // verus!
