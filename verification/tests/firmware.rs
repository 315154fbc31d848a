use adis_imu::burstmem::BurstMemory16;
use adis_imu::burstmem::BurstMemory32;
use adis_imu::cfg::Burst32;
use adis_imu::cfg::BurstSel;
use adis_imu::cfg::LinearAccelerationCompensation;
use adis_imu::cfg::MscCtrl;
use adis_imu::cfg::SensorBandwidth;
use adis_imu::cfg::CFG;
use adis_imu::config::Config;
use adis_imu::firmware::Action;
use adis_imu::firmware::BusTimer;
use adis_imu::firmware::Event;
use adis_imu::firmware::Firmware;
use adis_imu::firmware::RESET_PULSE_US;
use adis_imu::firmware::SETTLE_DELAY_MS;
use adis_imu::firmware::SPI_DATA_DELAY_US;
use adis_imu::framing::to_vec_cobs;
use adis_imu::message::Message;

fn frames(messages: &[Message]) -> Vec<u8> {
    let mut bytes = Vec::new();
    for message in messages {
        bytes.extend(to_vec_cobs::<64>(message).unwrap());
    }
    bytes
}

fn enable32() -> Message {
    Message::CFG(CFG::Burst32(Burst32::Enabled))
}

#[test]
fn the_machine_starts_with_the_defaults() {
    let mut machine = Firmware::new();
    assert_eq!(machine.config(), Config::default());
    assert_eq!(Config::default(), Config { burst_enabled: false, msc_ctrl: MscCtrl::default() });
    assert!(machine.flush().is_empty());
    assert_eq!(SPI_DATA_DELAY_US, 16);
    assert_eq!(SETTLE_DELAY_MS, 1);
    assert_eq!(RESET_PULSE_US, 50);
}

#[test]
fn a_change_that_the_sensor_gives_back_is_committed_and_acknowledged() {
    let mut machine = Firmware::new();
    let action = machine.handle(Event::Message(enable32()));
    let wanted = MscCtrl { burst32: Burst32::Enabled, ..MscCtrl::default() };
    match action {
        Action::WriteVerify { write, read } => {
            assert_eq!(write, [0xE0C1, 0xE102]);
            assert_eq!(read, 0x6000);
        }
        _ => panic!("the change must be written"),
    }
    assert_eq!(machine.config(), Config::default());
    assert!(matches!(machine.handle(Event::ReadBack(Some(0x02C1))), Action::Idle));
    assert_eq!(machine.config(), Config { burst_enabled: false, msc_ctrl: wanted });
    assert_eq!(machine.flush().as_slice(), &frames(&[enable32()])[..]);
}

#[test]
fn a_change_that_the_sensor_does_not_give_back_is_dropped() {
    for word in [Some(0x00C1), Some(0x02C0), Some(0xFFFF), Some(0), None] {
        let mut machine = Firmware::new();
        assert!(matches!(
            machine.handle(Event::Message(enable32())),
            Action::WriteVerify { .. }
        ));
        assert!(matches!(machine.handle(Event::ReadBack(word)), Action::Idle));
        assert_eq!(machine.config(), Config::default());
        assert!(machine.flush().is_empty());
    }
}

#[test]
fn reserved_bits_of_the_word_read_back_do_not_matter() {
    let mut machine = Firmware::new();
    machine.handle(Event::Message(enable32()));
    machine.handle(Event::ReadBack(Some(0x02C1 | 0xFC20)));
    assert_eq!(machine.config().msc_ctrl.burst32, Burst32::Enabled);
    assert_eq!(machine.flush().as_slice(), &frames(&[enable32()])[..]);
}

#[test]
fn a_word_read_back_counts_once() {
    let mut machine = Firmware::new();
    machine.handle(Event::ReadBack(Some(0x02C1)));
    assert_eq!(machine.config(), Config::default());
    machine.handle(Event::Message(enable32()));
    machine.handle(Event::ReadBack(Some(0x02C1)));
    machine.handle(Event::ReadBack(Some(0x02C1)));
    assert_eq!(machine.flush().as_slice(), &frames(&[enable32()])[..]);
    machine.handle(Event::Message(enable32()));
    machine.handle(Event::Message(Message::ERR(1)));
    machine.handle(Event::ReadBack(Some(0x02C1)));
    assert_eq!(machine.flush().as_slice(), &frames(&[enable32()])[..]);
}

#[test]
fn a_change_to_what_is_in_force_needs_no_bus() {
    let mut machine = Firmware::new();
    let same = Message::CFG(CFG::LinearAccelerationCompensation(
        LinearAccelerationCompensation::Enabled,
    ));
    assert!(matches!(machine.handle(Event::Message(same)), Action::Idle));
    assert_eq!(machine.config(), Config::default());
    assert_eq!(machine.flush().as_slice(), &frames(&[same])[..]);
}

#[test]
fn the_streaming_flag_is_set_at_once_and_acknowledged_once() {
    let mut machine = Firmware::new();
    let on = Message::CFG(CFG::BurstEn(true));
    assert!(!machine.burst_due(true));
    assert!(matches!(machine.handle(Event::Message(on)), Action::Idle));
    assert!(machine.config().burst_enabled);
    assert_eq!(machine.config().msc_ctrl, MscCtrl::default());
    assert!(machine.burst_due(true));
    assert!(!machine.burst_due(false));
    assert_eq!(machine.flush().as_slice(), &frames(&[on])[..]);
    machine.handle(Event::Message(Message::CFG(CFG::BurstEn(false))));
    assert!(!machine.burst_due(true));
}

#[test]
fn a_register_word_is_forwarded_and_answered_as_it_came() {
    let mut machine = Firmware::new();
    match machine.handle(Event::Message(Message::RQR(0x7200))) {
        Action::Forward { word } => assert_eq!(word, 0x7200),
        _ => panic!("the word must be forwarded"),
    }
    assert!(matches!(machine.handle(Event::Response(Some(0x4079))), Action::Idle));
    assert_eq!(machine.flush().as_slice(), &frames(&[Message::RQR(0x4079)])[..]);
    machine.handle(Event::Message(Message::RQR(0x7200)));
    machine.handle(Event::Response(None));
    assert!(machine.flush().is_empty());
    machine.handle(Event::Response(Some(1)));
    assert!(machine.flush().is_empty());
    assert_eq!(machine.config(), Config::default());
}

#[test]
fn a_restart_resets_sensor_and_configuration() {
    let mut machine = Firmware::new();
    machine.handle(Event::Message(Message::CFG(CFG::BurstEn(true))));
    machine.handle(Event::Message(Message::CFG(CFG::SensorBandwidth(SensorBandwidth::Hz370))));
    machine.handle(Event::ReadBack(Some(0x00D1)));
    assert_eq!(machine.config().msc_ctrl.bw, SensorBandwidth::Hz370);
    machine.flush();
    assert!(matches!(machine.handle(Event::Message(Message::RST)), Action::Reset));
    assert_eq!(machine.config(), Config::default());
    assert_eq!(machine.flush().as_slice(), &frames(&[Message::RST])[..]);
}

#[test]
fn frames_from_the_device_and_error_reports_lead_to_nothing() {
    let mut machine = Firmware::new();
    let inbound = [
        Message::ERR(3),
        Message::B16(BurstSel::Sel0, BurstMemory16::default()),
        Message::B32(BurstSel::Sel1, BurstMemory32::default()),
    ];
    for message in inbound {
        assert!(matches!(machine.handle(Event::Message(message)), Action::Idle));
    }
    assert_eq!(machine.config(), Config::default());
    assert!(machine.flush().is_empty());
}

#[test]
fn flush_sends_the_newest_first_and_empties_the_queue() {
    let mut machine = Firmware::new();
    machine.handle(Event::Message(Message::RST));
    machine.handle(Event::Message(Message::CFG(CFG::BurstEn(true))));
    machine.handle(Event::Message(Message::RQR(1)));
    machine.handle(Event::Response(Some(0x1234)));
    let sent = [Message::RQR(0x1234), Message::CFG(CFG::BurstEn(true)), Message::RST];
    assert_eq!(machine.flush().as_slice(), &frames(&sent)[..]);
    assert!(machine.flush().is_empty());
}

#[test]
fn the_queue_holds_eight_answers() {
    let mut machine = Firmware::new();
    for word in 0..10u16 {
        machine.handle(Event::Message(Message::RQR(0)));
        machine.handle(Event::Response(Some(0x4000 + word)));
    }
    let kept: Vec<Message> = (0..8u16).rev().map(|word| Message::RQR(0x4000 + word)).collect();
    assert_eq!(machine.flush().as_slice(), &frames(&kept)[..]);
    for word in 0..13u16 {
        machine.handle(Event::Message(Message::RQR(0)));
        machine.handle(Event::Response(Some(0xFFFF - word)));
    }
    let packet = machine.flush();
    assert_eq!(packet.len(), 48);
    assert!(machine.flush().is_empty());
}

#[test]
fn what_comes_after_the_eighth_answer_is_dropped() {
    let mut machine = Firmware::new();
    for _ in 0..7 {
        machine.handle(Event::Message(Message::CFG(CFG::BurstEn(true))));
    }
    machine.handle(Event::Message(Message::RQR(0)));
    machine.handle(Event::Response(Some(0x8080)));
    for _ in 0..4 {
        machine.handle(Event::Message(Message::RST));
    }
    let packet = machine.flush();
    let mut sent = vec![Message::RQR(0x8080)];
    sent.extend([Message::CFG(CFG::BurstEn(true)); 7]);
    assert_eq!(packet.len(), 6 + 35);
    assert_eq!(packet.as_slice(), &frames(&sent)[..]);
}

#[test]
fn burst_frames_go_out_raw_with_the_selector_in_force() {
    let mut machine = Firmware::new();
    assert_eq!(machine.burst_request(), 0x6800);
    assert_eq!(machine.burst_len(), 10);
    let words: Vec<u16> = (100..116).collect();
    let narrow = Message::B16(
        BurstSel::Sel0,
        BurstMemory16::from([100, 101, 102, 103, 104, 105, 106, 107, 108, 109]),
    );
    assert_eq!(machine.burst(&words[..10]), Some(frames(&[narrow])));
    assert_eq!(machine.burst(&words), None);
    assert_eq!(machine.burst(&words[..9]), None);
    assert_eq!(machine.burst(&[]), None);
    machine.handle(Event::Message(Message::CFG(CFG::BurstSel(BurstSel::Sel1))));
    machine.handle(Event::ReadBack(Some(0x01C1)));
    machine.handle(Event::Message(enable32()));
    machine.handle(Event::ReadBack(Some(0x03C1)));
    assert_eq!(machine.burst_len(), 16);
    let wide = Message::B32(
        BurstSel::Sel1,
        BurstMemory32::from([
            100, 101, 102, 103, 104, 105, 106, 107, 108, 109, 110, 111, 112, 113, 114, 115,
        ]),
    );
    assert_eq!(machine.burst(&words), Some(frames(&[wide])));
    assert_eq!(machine.burst(&words[..10]), None);
    let zeros = machine.burst(&[0; 16]).unwrap();
    assert!(zeros.len() <= 64);
}

#[test]
fn the_bus_rests_between_transactions() {
    let mut timer = BusTimer::new();
    assert!(timer.ready(0));
    assert!(timer.ready(u64::MAX));
    timer.mark(1000);
    assert!(!timer.ready(1000));
    assert!(!timer.ready(1015));
    assert!(timer.ready(1016));
    assert!(timer.ready(5000));
    assert!(!timer.ready(999));
    assert!(!timer.ready(0));
    timer.mark(u64::MAX - 3);
    assert!(!timer.ready(u64::MAX));
    timer.mark(0);
    assert!(timer.ready(16));
    assert!(!timer.ready(15));
}
