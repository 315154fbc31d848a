use adis_imu::args::Args;
use adis_imu::cfg::Burst32;
use adis_imu::cfg::BurstSel;
use adis_imu::cfg::CFG;
use adis_imu::message::Message;
use adis_imu::version::AdisVersion;
use adis_imu::version::UnknownDeviceVariant;

fn args(burst_mode: u32, burst_sel: u32, board_id: u32, board_version: u32) -> Args {
    Args {
        device: None,
        vid: 0x16C0,
        pid: 0x27DD,
        baud_rate: 115200,
        timeout_ns: None,
        log_path: String::new(),
        log_name: String::from("log"),
        burst_mode,
        burst_sel,
        board_id,
        board_version,
    }
}

#[test]
fn the_settings_name_the_requests_to_start_with() {
    assert_eq!(
        args(16, 0, 16505, 1).startup(),
        Some(vec![
            Message::RST,
            Message::CFG(CFG::Burst32(Burst32::Disabled)),
            Message::CFG(CFG::BurstSel(BurstSel::Sel0)),
            Message::CFG(CFG::BurstEn(true)),
        ])
    );
    assert_eq!(
        args(32, 1, 16505, 1).startup(),
        Some(vec![
            Message::RST,
            Message::CFG(CFG::Burst32(Burst32::Enabled)),
            Message::CFG(CFG::BurstSel(BurstSel::Sel1)),
            Message::CFG(CFG::BurstEn(true)),
        ])
    );
    assert_eq!(args(8, 0, 16505, 1).startup(), None);
    assert_eq!(args(16, 2, 16505, 1).startup(), None);
    assert_eq!(args(0, 0, 16505, 1).burst_mode_cfg(), None);
    assert_eq!(args(32, 0, 16505, 1).burst_mode_cfg(), Some(CFG::Burst32(Burst32::Enabled)));
    assert_eq!(args(32, 1, 16505, 1).burst_sel_cfg(), Some(CFG::BurstSel(BurstSel::Sel1)));
    assert_eq!(args(32, 7, 16505, 1).burst_sel_cfg(), None);
}

#[test]
fn the_settings_name_the_sensor_model() {
    assert_eq!(args(16, 0, 16505, 1).version(), Ok(AdisVersion::ADIS16505_1BMLZ));
    assert_eq!(args(16, 0, 16465, 3).version(), Ok(AdisVersion::ADIS16465_3BMLZ));
    assert_eq!(args(16, 0, 16470, 1).version(), Err(UnknownDeviceVariant));
}
