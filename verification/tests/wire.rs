use adis_imu::burstmem::BurstMemory16;
use adis_imu::burstmem::BurstMemory32;
use adis_imu::cfg::Burst32;
use adis_imu::cfg::BurstSel;
use adis_imu::cfg::DataReadyPolarity;
use adis_imu::cfg::LinearAccelerationCompensation;
use adis_imu::cfg::PointOfPercussionAlignment;
use adis_imu::cfg::SensorBandwidth;
use adis_imu::cfg::SyncPolarity;
use adis_imu::cfg::CFG;
use adis_imu::message::Message;

fn every_cfg() -> Vec<CFG> {
    vec![
        CFG::BurstEn(false),
        CFG::BurstEn(true),
        CFG::Burst32(Burst32::Disabled),
        CFG::Burst32(Burst32::Enabled),
        CFG::BurstSel(BurstSel::Sel0),
        CFG::BurstSel(BurstSel::Sel1),
        CFG::LinearAccelerationCompensation(LinearAccelerationCompensation::Disabled),
        CFG::LinearAccelerationCompensation(LinearAccelerationCompensation::Enabled),
        CFG::PointOfPercussionAlignment(PointOfPercussionAlignment::Disabled),
        CFG::PointOfPercussionAlignment(PointOfPercussionAlignment::Enabled),
        CFG::SensorBandwidth(SensorBandwidth::Wide),
        CFG::SensorBandwidth(SensorBandwidth::Hz370),
        CFG::SyncPolarity(SyncPolarity::FallingEdge),
        CFG::SyncPolarity(SyncPolarity::RisingEdge),
        CFG::DataReadyPolarity(DataReadyPolarity::ActiveLow),
        CFG::DataReadyPolarity(DataReadyPolarity::ActiveHigh),
    ]
}

fn samples() -> Vec<Message> {
    let mut all: Vec<Message> = every_cfg().into_iter().map(Message::CFG).collect();
    for word in [0u16, 1, 127, 128, 255, 256, 16383, 16384, 0x1234, 0xFFFF] {
        all.push(Message::RQR(word));
    }
    all.push(Message::B16(BurstSel::Sel0, BurstMemory16::from([0; 10])));
    all.push(Message::B16(
        BurstSel::Sel1,
        BurstMemory16::from([0xFFFF, 0, 127, 128, 16383, 16384, 1, 2, 3, 0x8000]),
    ));
    all.push(Message::B32(BurstSel::Sel0, BurstMemory32::from([0xFFFF; 16])));
    all.push(Message::B32(
        BurstSel::Sel1,
        BurstMemory32::from([0, 1, 2, 3, 4, 5, 6, 7, 8, 9, 10, 11, 12, 13, 14, 0x4000]),
    ));
    all.push(Message::RST);
    for tag in [0u8, 1, 5, 127, 128, 255] {
        all.push(Message::ERR(tag));
    }
    all
}

#[test]
fn byte_form_of_each_kind_of_message() {
    assert_eq!(Message::CFG(CFG::BurstEn(true)).to_bytes(), vec![0, 0, 1]);
    assert_eq!(Message::CFG(CFG::BurstEn(false)).to_bytes(), vec![0, 0, 0]);
    assert_eq!(Message::CFG(CFG::Burst32(Burst32::Enabled)).to_bytes(), vec![0, 1, 1]);
    assert_eq!(
        Message::CFG(CFG::DataReadyPolarity(DataReadyPolarity::ActiveLow)).to_bytes(),
        vec![0, 7, 0]
    );
    assert_eq!(Message::RQR(0).to_bytes(), vec![1, 0]);
    assert_eq!(Message::RQR(127).to_bytes(), vec![1, 0x7F]);
    assert_eq!(Message::RQR(128).to_bytes(), vec![1, 0x80, 0x01]);
    assert_eq!(Message::RQR(0x1234).to_bytes(), vec![1, 0xB4, 0x24]);
    assert_eq!(Message::RQR(16384).to_bytes(), vec![1, 0x80, 0x80, 0x01]);
    assert_eq!(Message::RQR(0xFFFF).to_bytes(), vec![1, 0xFF, 0xFF, 0x03]);
    assert_eq!(Message::RST.to_bytes(), vec![4]);
    assert_eq!(Message::ERR(0).to_bytes(), vec![5, 0]);
    assert_eq!(Message::ERR(200).to_bytes(), vec![5, 200]);
    assert_eq!(
        Message::B16(BurstSel::Sel1, BurstMemory16::from([1, 2, 3, 4, 5, 6, 7, 8, 9, 300]))
            .to_bytes(),
        vec![2, 1, 1, 2, 3, 4, 5, 6, 7, 8, 9, 0xAC, 0x02]
    );
    let wide = Message::B32(BurstSel::Sel0, BurstMemory32::from([0xFFFF; 16])).to_bytes();
    assert_eq!(wide.len(), 50);
    assert_eq!(&wide[..5], &[3, 0, 0xFF, 0xFF, 0x03]);
}

#[test]
fn every_message_is_read_back_from_its_bytes() {
    for message in samples() {
        let bytes = message.to_bytes();
        assert!(!bytes.is_empty() && bytes.len() <= 50);
        assert_eq!(Message::from_bytes(&bytes), Some(message));
        let mut longer = bytes.clone();
        longer.extend_from_slice(&[0xFF, 0x00, 0x80]);
        assert_eq!(Message::from_bytes(&longer), Some(message));
    }
}

#[test]
fn bytes_agree_with_the_postcard_encoding() {
    let rqr: heapless::Vec<u8, 64> = postcard::to_vec(&(1u8, 0x1234u16)).unwrap();
    assert_eq!(Message::RQR(0x1234).to_bytes(), rqr.to_vec());
    let top: heapless::Vec<u8, 64> = postcard::to_vec(&(1u8, 0xFFFFu16)).unwrap();
    assert_eq!(Message::RQR(0xFFFF).to_bytes(), top.to_vec());
    let cfg: heapless::Vec<u8, 64> = postcard::to_vec(&(0u8, 3u8, true)).unwrap();
    assert_eq!(
        Message::CFG(CFG::LinearAccelerationCompensation(LinearAccelerationCompensation::Enabled))
            .to_bytes(),
        cfg.to_vec()
    );
    let err: heapless::Vec<u8, 64> = postcard::to_vec(&(5u8, 77u8)).unwrap();
    assert_eq!(Message::ERR(77).to_bytes(), err.to_vec());
    let rst: heapless::Vec<u8, 64> = postcard::to_vec(&4u32).unwrap();
    assert_eq!(Message::RST.to_bytes(), rst.to_vec());
    let words16 = [0xFFFFu16, 0, 127, 128, 16383, 16384, 1, 2, 3, 0x8000];
    let b16: heapless::Vec<u8, 64> = postcard::to_vec(&(2u32, 1u32, words16)).unwrap();
    assert_eq!(Message::B16(BurstSel::Sel1, BurstMemory16::from(words16)).to_bytes(), b16.to_vec());
    let words32 = [0, 1, 200, 3, 40000, 5, 6, 7, 8, 9, 10, 11, 12, 13, 14, 0x4000u16];
    let b32: heapless::Vec<u8, 64> = postcard::to_vec(&(3u32, 0u32, words32)).unwrap();
    assert_eq!(Message::B32(BurstSel::Sel0, BurstMemory32::from(words32)).to_bytes(), b32.to_vec());
}

#[test]
fn postcard_reads_what_the_library_writes() {
    let bytes = Message::RQR(54321).to_bytes();
    assert_eq!(postcard::from_bytes::<(u32, u16)>(&bytes), Ok((1, 54321)));
    let words = [9u16, 8, 7, 6, 500, 4, 3, 2, 1, 65535];
    let bytes = Message::B16(BurstSel::Sel0, BurstMemory16::from(words)).to_bytes();
    assert_eq!(postcard::from_bytes::<(u32, u32, [u16; 10])>(&bytes), Ok((2, 0, words)));
    let bytes = Message::CFG(CFG::BurstEn(true)).to_bytes();
    assert_eq!(postcard::from_bytes::<(u32, u32, bool)>(&bytes), Ok((0, 0, true)));
}

#[test]
fn numbers_with_spare_bytes_are_accepted() {
    assert_eq!(Message::from_bytes(&[0x84, 0x00]), Some(Message::RST));
    assert_eq!(Message::from_bytes(&[0x84, 0x80, 0x80, 0x80, 0x00]), Some(Message::RST));
    assert_eq!(Message::from_bytes(&[0x01, 0x80, 0x00]), Some(Message::RQR(0)));
    assert_eq!(Message::from_bytes(&[0x01, 0x81, 0x80, 0x00]), Some(Message::RQR(1)));
    assert_eq!(
        Message::from_bytes(&[0x00, 0x81, 0x00, 0x81, 0x00]),
        Some(Message::CFG(CFG::Burst32(Burst32::Enabled)))
    );
    assert_eq!(postcard::from_bytes::<(u32, u16)>(&[0x01, 0x81, 0x80, 0x00]), Ok((1, 1)));
    assert_eq!(postcard::from_bytes::<u32>(&[0x84, 0x80, 0x80, 0x80, 0x00]), Ok(4));
}

#[test]
fn bytes_that_start_with_no_message_are_refused() {
    assert_eq!(Message::from_bytes(&[]), None);
    assert_eq!(Message::from_bytes(&[6]), None);
    assert_eq!(Message::from_bytes(&[0xFF]), None);
    assert_eq!(Message::from_bytes(&[0x80, 0x80, 0x80, 0x80, 0x80, 0x00]), None);
    assert_eq!(Message::from_bytes(&[0x84, 0x80, 0x80, 0x80, 0x10]), None);
    assert_eq!(Message::from_bytes(&[0]), None);
    assert_eq!(Message::from_bytes(&[0, 0]), None);
    assert_eq!(Message::from_bytes(&[0, 0, 2]), None);
    assert_eq!(Message::from_bytes(&[0, 1, 2]), None);
    assert_eq!(Message::from_bytes(&[0, 8, 0]), None);
    assert_eq!(Message::from_bytes(&[1]), None);
    assert_eq!(Message::from_bytes(&[1, 0x80]), None);
    assert_eq!(Message::from_bytes(&[1, 0xFF, 0xFF, 0x04]), None);
    assert_eq!(Message::from_bytes(&[1, 0xFF, 0xFF, 0x83, 0x00]), None);
    assert_eq!(Message::from_bytes(&[2, 0, 1, 2, 3, 4, 5, 6, 7, 8, 9]), None);
    assert_eq!(Message::from_bytes(&[2, 2, 1, 2, 3, 4, 5, 6, 7, 8, 9, 10]), None);
    assert_eq!(Message::from_bytes(&[3, 0, 1, 2, 3, 4, 5, 6, 7, 8, 9, 10]), None);
    assert_eq!(Message::from_bytes(&[5]), None);
    assert!(postcard::from_bytes::<(u32, u16)>(&[1, 0xFF, 0xFF, 0x04]).is_err());
    assert!(postcard::from_bytes::<u32>(&[0x84, 0x80, 0x80, 0x80, 0x10]).is_err());
    assert!(postcard::from_bytes::<(u32, u32, bool)>(&[0, 0, 2]).is_err());
}

#[test]
fn requests_know_their_parts() {
    for request in every_cfg() {
        assert_eq!(CFG::from_parts(request.tag_byte(), request.flag_bit()), Some(request));
    }
    assert_eq!(CFG::from_parts(8, false), None);
    assert_eq!(CFG::from_parts(255, true), None);
    assert_eq!(CFG::BurstSel(BurstSel::Sel1).tag_byte(), 2);
    assert!(CFG::BurstSel(BurstSel::Sel1).flag_bit());
}

#[test]
fn messages_compare_by_value() {
    let all = samples();
    for (i, left) in all.iter().enumerate() {
        for (j, right) in all.iter().enumerate() {
            assert_eq!(left == right, i == j);
        }
    }
}
