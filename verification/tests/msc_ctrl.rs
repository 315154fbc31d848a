use adis_imu::msc_ctrl::Burst32;
use adis_imu::msc_ctrl::BurstSel;
use adis_imu::msc_ctrl::DataReadyPolarity;
use adis_imu::msc_ctrl::LinearAccelerationCompensation;
use adis_imu::msc_ctrl::MscCtrl;
use adis_imu::msc_ctrl::PointOfPercussionAlignment;
use adis_imu::msc_ctrl::SensorBandwidth;
use adis_imu::msc_ctrl::SyncMode;
use adis_imu::msc_ctrl::SyncPolarity;

#[test]
fn msc_ctrl_test() {
    let msc_ctrl = MscCtrl::default();
    assert_eq!(msc_ctrl.burst32, Burst32::Disabled);
    assert_eq!(msc_ctrl.burst_sel, BurstSel::Sel0);
    assert_eq!(msc_ctrl.lac, LinearAccelerationCompensation::Enabled);
    assert_eq!(msc_ctrl.popa, PointOfPercussionAlignment::Enabled);
    assert_eq!(msc_ctrl.bw, SensorBandwidth::Wide);
    assert_eq!(msc_ctrl.sync_mode, SyncMode::Internal);
    assert_eq!(msc_ctrl.sync_pol, SyncPolarity::FallingEdge);
    assert_eq!(msc_ctrl.dr_pol, DataReadyPolarity::ActiveHigh);
}

fn every_value() -> Vec<MscCtrl> {
    let mut values = Vec::new();
    for bits in 0u16..512 {
        values.push(MscCtrl {
            burst32: if bits & 1 != 0 { Burst32::Enabled } else { Burst32::Disabled },
            burst_sel: if bits & 2 != 0 { BurstSel::Sel1 } else { BurstSel::Sel0 },
            lac: if bits & 4 != 0 {
                LinearAccelerationCompensation::Enabled
            } else {
                LinearAccelerationCompensation::Disabled
            },
            popa: if bits & 8 != 0 {
                PointOfPercussionAlignment::Enabled
            } else {
                PointOfPercussionAlignment::Disabled
            },
            bw: if bits & 16 != 0 { SensorBandwidth::Hz370 } else { SensorBandwidth::Wide },
            sync_mode: match (bits >> 5) & 3 {
                0 => SyncMode::Internal,
                1 => SyncMode::DirectInput,
                2 => SyncMode::ScaledInput,
                _ => SyncMode::Output,
            },
            sync_pol: if bits & 128 != 0 { SyncPolarity::RisingEdge } else { SyncPolarity::FallingEdge },
            dr_pol: if bits & 256 != 0 {
                DataReadyPolarity::ActiveHigh
            } else {
                DataReadyPolarity::ActiveLow
            },
        });
    }
    values
}

#[test]
fn decoding_an_encoded_value_gives_it_back() {
    let values = every_value();
    assert_eq!(values.len(), 512);
    for value in values {
        let word: u16 = value.into();
        assert_eq!(word & !0x03DF, 0);
        assert_eq!(MscCtrl::from(word), value);
    }
}

#[test]
fn encoding_a_decoded_word_keeps_the_field_bits() {
    for word in 0u16..=u16::MAX {
        assert_eq!(u16::from(MscCtrl::from(word)), word & 0x03DF);
    }
}

#[test]
fn default_is_the_power_up_word() {
    assert_eq!(u16::from(MscCtrl::default()), 0x00C1);
    assert_eq!(MscCtrl::default(), MscCtrl::from(0x00C1));
}

#[test]
fn fields_sit_at_their_bits() {
    assert_eq!(u16::from(Burst32::Enabled), 1 << 9);
    assert_eq!(u16::from(BurstSel::Sel1), 1 << 8);
    assert_eq!(u16::from(LinearAccelerationCompensation::Enabled), 1 << 7);
    assert_eq!(u16::from(PointOfPercussionAlignment::Enabled), 1 << 6);
    assert_eq!(u16::from(SensorBandwidth::Hz370), 1 << 4);
    assert_eq!(u16::from(SyncMode::DirectInput), 1 << 2);
    assert_eq!(u16::from(SyncMode::ScaledInput), 2 << 2);
    assert_eq!(u16::from(SyncMode::Output), 3 << 2);
    assert_eq!(u16::from(SyncPolarity::RisingEdge), 1 << 1);
    assert_eq!(u16::from(DataReadyPolarity::ActiveHigh), 1);
    assert_eq!(u16::from(Burst32::Disabled), 0);
    assert_eq!(u16::from(SyncMode::Internal), 0);
    assert_eq!(Burst32::from(0x0200), Burst32::Enabled);
    assert_eq!(Burst32::from(0xFDFF), Burst32::Disabled);
    assert_eq!(SyncMode::from(0x000C), SyncMode::Output);
    assert_eq!(SyncMode::from(0xFFF7), SyncMode::DirectInput);
    assert_eq!(SensorBandwidth::from(0x0010), SensorBandwidth::Hz370);
    assert!(Burst32::from_flag(true).is_set());
    assert!(!BurstSel::from_flag(false).is_set());
}
