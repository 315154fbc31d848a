//! What a logging program is told on its command line, and what that means
//! for the session: which sensor model to decode for and which requests to
//! send before samples are read.

use vstd::prelude::*;
use crate::cfg::Burst32;
use crate::cfg::BurstSel;
use crate::cfg::CFG;
use crate::message::Message;
use crate::version::AdisVersion;
use crate::version::UnknownDeviceVariant;

verus! {

/// The settings of one run.
#[derive(Debug)]
pub struct Args {
    /// Name of the port; discovery by vendor and product number where
    /// there is none.
    pub device: Option<String>,
    /// Vendor number of the port.
    pub vid: u16,
    /// Product number of the port.
    pub pid: u16,
    /// Line speed of the port.
    pub baud_rate: u32,
    /// Read timeout of the port in nanoseconds.
    pub timeout_ns: Option<u64>,
    /// Directory of the log file.
    pub log_path: String,
    /// Name of the log file.
    pub log_name: String,
    /// Width of the burst fields: 16 or 32.
    pub burst_mode: u32,
    /// Content of the burst fields: 0 for rates and accelerations, 1 for
    /// delta angles and delta velocities.
    pub burst_sel: u32,
    /// Product number of the sensor.
    pub board_id: u32,
    /// Range digit of the sensor.
    pub board_version: u32,
}

/// The request that sets the burst width to `mode` bits, where `mode` is a
/// width that the sensor has.
pub open spec fn burst_mode_request(mode: u32) -> Option<CFG> {
    if mode == 16 {
        Some(CFG::Burst32(Burst32::Disabled))
    } else if mode == 32 {
        Some(CFG::Burst32(Burst32::Enabled))
    } else {
        None
    }
}

/// The request that sets the burst content to selector `sel`, where `sel`
/// is 0 or 1.
pub open spec fn burst_sel_request(sel: u32) -> Option<CFG> {
    if sel == 0 {
        Some(CFG::BurstSel(BurstSel::Sel0))
    } else if sel == 1 {
        Some(CFG::BurstSel(BurstSel::Sel1))
    } else {
        None
    }
}

impl Args {
    /// The sensor model that the settings name.
    pub fn version(&self) -> (model: Result<AdisVersion, UnknownDeviceVariant>)
        ensures
            model == match AdisVersion::with_id(self.board_id, self.board_version) {
                Some(found) => Ok::<AdisVersion, UnknownDeviceVariant>(found),
                None => Err(UnknownDeviceVariant),
            },
    {
        AdisVersion::from_id(self.board_id, self.board_version)
    }

    /// The request for the burst width of the settings; none where the
    /// width is neither 16 nor 32.
    pub fn burst_mode_cfg(&self) -> (request: Option<CFG>)
        ensures
            request == burst_mode_request(self.burst_mode),
    {
        if self.burst_mode == 16 {
            Some(CFG::Burst32(Burst32::Disabled))
        } else if self.burst_mode == 32 {
            Some(CFG::Burst32(Burst32::Enabled))
        } else {
            None
        }
    }

    /// The request for the burst content of the settings; none where the
    /// selector is neither 0 nor 1.
    pub fn burst_sel_cfg(&self) -> (request: Option<CFG>)
        ensures
            request == burst_sel_request(self.burst_sel),
    {
        if self.burst_sel == 0 {
            Some(CFG::BurstSel(BurstSel::Sel0))
        } else if self.burst_sel == 1 {
            Some(CFG::BurstSel(BurstSel::Sel1))
        } else {
            None
        }
    }

    /// The requests to send, in this order and each confirmed before the
    /// next, before samples are read: a restart, the burst width, the burst
    /// content, and streaming on. None where the width or the selector of
    /// the settings is not one that the sensor has.
    pub fn startup(&self) -> (requests: Option<Vec<Message>>)
        ensures
            match (burst_mode_request(self.burst_mode), burst_sel_request(self.burst_sel)) {
                (Some(mode), Some(sel)) => requests is Some && requests->0@ == seq![
                    Message::RST,
                    Message::CFG(mode),
                    Message::CFG(sel),
                    Message::CFG(CFG::BurstEn(true)),
                ],
                _ => requests is None,
            },
    {
        match (self.burst_mode_cfg(), self.burst_sel_cfg()) {
            (Some(mode), Some(sel)) => {
                let mut requests: Vec<Message> = Vec::new();
                requests.push(Message::RST);
                requests.push(Message::CFG(mode));
                requests.push(Message::CFG(sel));
                requests.push(Message::CFG(CFG::BurstEn(true)));
                assert(requests@ =~= seq![
                    Message::RST,
                    Message::CFG(mode),
                    Message::CFG(sel),
                    Message::CFG(CFG::BurstEn(true)),
                ]);
                Some(requests)
            },
            _ => None,
        }
    }
}

} // verus!
