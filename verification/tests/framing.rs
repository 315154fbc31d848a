use adis_imu::burstmem::BurstMemory16;
use adis_imu::burstmem::BurstMemory32;
use adis_imu::cfg::Burst32;
use adis_imu::cfg::BurstSel;
use adis_imu::cfg::CFG;
use adis_imu::framing::from_bytes_cobs;
use adis_imu::framing::seal;
use adis_imu::framing::to_vec_cobs;
use adis_imu::framing::CobsAccumulator;
use adis_imu::framing::FeedResult;
use adis_imu::framing::ProtocolError;
use adis_imu::message::Message;

fn frame(message: &Message) -> Vec<u8> {
    to_vec_cobs::<256>(message).unwrap()
}

fn drain<const N: usize>(accumulator: &mut CobsAccumulator<N>, input: &[u8]) -> Vec<Message> {
    let mut found = Vec::new();
    let mut window = input;
    while !window.is_empty() {
        window = match accumulator.feed(window) {
            FeedResult::Consumed => break,
            FeedResult::OverFull(rest) => rest,
            FeedResult::DeserError(rest) => rest,
            FeedResult::Success { data, remaining } => {
                found.push(data);
                remaining
            }
        };
    }
    found
}

fn samples() -> Vec<Message> {
    vec![
        Message::RST,
        Message::RQR(0),
        Message::RQR(0x1234),
        Message::ERR(0),
        Message::ERR(9),
        Message::CFG(CFG::BurstEn(true)),
        Message::CFG(CFG::Burst32(Burst32::Enabled)),
        Message::B16(BurstSel::Sel0, BurstMemory16::from([0; 10])),
        Message::B16(BurstSel::Sel1, BurstMemory16::from([1, 0, 0x100, 0xFFFF, 5, 0, 0, 8, 9, 700])),
        Message::B32(BurstSel::Sel1, BurstMemory32::from([0xFFFF; 16])),
        Message::B32(BurstSel::Sel0, BurstMemory32::from([0; 16])),
    ]
}

#[test]
fn frames_are_stuffed_and_end_with_the_sentinel() {
    assert_eq!(frame(&Message::RST), vec![2, 4, 0]);
    assert_eq!(frame(&Message::RQR(0)), vec![2, 1, 1, 0]);
    assert_eq!(frame(&Message::RQR(0x1234)), vec![4, 1, 0xB4, 0x24, 0]);
    assert_eq!(frame(&Message::ERR(7)), vec![3, 5, 7, 0]);
    assert_eq!(frame(&Message::CFG(CFG::BurstEn(true))), vec![1, 1, 2, 1, 0]);
    assert_eq!(frame(&Message::CFG(CFG::Burst32(Burst32::Enabled))), vec![1, 3, 1, 1, 0]);
    for message in samples() {
        let bytes = frame(&message);
        assert!(bytes.len() <= 52);
        assert_eq!(bytes.iter().filter(|byte| **byte == 0).count(), 1);
        assert_eq!(bytes.last(), Some(&0));
        assert_ne!(bytes[..bytes.len() - 1], message.to_bytes()[..]);
    }
}

#[test]
fn frames_agree_with_postcard() {
    let theirs: heapless::Vec<u8, 256> = postcard::to_vec_cobs(&(1u8, 0x1234u16)).unwrap();
    assert_eq!(frame(&Message::RQR(0x1234)), theirs.to_vec());
    let theirs: heapless::Vec<u8, 256> = postcard::to_vec_cobs(&(1u8, 0u16)).unwrap();
    assert_eq!(frame(&Message::RQR(0)), theirs.to_vec());
    let theirs: heapless::Vec<u8, 256> = postcard::to_vec_cobs(&(0u8, 0u8, false)).unwrap();
    assert_eq!(frame(&Message::CFG(CFG::BurstEn(false))), theirs.to_vec());
    let zeros = [0u16; 16];
    let theirs: heapless::Vec<u8, 256> = postcard::to_vec_cobs(&(3u8, 0u8, zeros)).unwrap();
    assert_eq!(frame(&Message::B32(BurstSel::Sel0, BurstMemory32::from(zeros))), theirs.to_vec());
    let ones = [0xFFFFu16; 16];
    let theirs: heapless::Vec<u8, 256> = postcard::to_vec_cobs(&(3u8, 1u8, ones)).unwrap();
    assert_eq!(frame(&Message::B32(BurstSel::Sel1, BurstMemory32::from(ones))), theirs.to_vec());
    let mut ours = frame(&Message::RQR(40000));
    assert_eq!(postcard::from_bytes_cobs::<(u32, u16)>(&mut ours), Ok((1, 40000)));
}

#[test]
fn a_frame_gives_its_message_back() {
    for message in samples() {
        let bytes = frame(&message);
        assert_eq!(from_bytes_cobs(&bytes), Ok(message));
        assert_eq!(from_bytes_cobs(&bytes[..bytes.len() - 1]), Ok(message));
    }
}

#[test]
fn the_frame_must_fit_its_buffer() {
    assert_eq!(to_vec_cobs::<2>(&Message::RST), Err(ProtocolError::BufferFull));
    assert_eq!(to_vec_cobs::<3>(&Message::RST), Ok(vec![2, 4, 0]));
    assert_eq!(to_vec_cobs::<0>(&Message::RST), Err(ProtocolError::BufferFull));
    let widest = Message::B32(BurstSel::Sel1, BurstMemory32::from([0xFFFF; 16]));
    assert_eq!(to_vec_cobs::<51>(&widest), Err(ProtocolError::BufferFull));
    assert_eq!(to_vec_cobs::<52>(&widest).map(|bytes| bytes.len()), Ok(52));
    assert!(postcard::to_vec_cobs::<_, 51>(&(3u8, 1u8, [0xFFFFu16; 16])).is_err());
    assert!(postcard::to_vec_cobs::<_, 52>(&(3u8, 1u8, [0xFFFFu16; 16])).is_ok());
    for message in samples() {
        assert!(to_vec_cobs::<52>(&message).is_ok());
        assert!(to_vec_cobs::<64>(&message).is_ok());
    }
}

#[test]
fn sealing_adds_the_sentinel_where_there_is_room() {
    assert_eq!(seal::<4>(vec![2, 4]), Ok(vec![2, 4, 0]));
    assert_eq!(seal::<3>(vec![2, 4]), Ok(vec![2, 4, 0]));
    assert_eq!(seal::<2>(vec![2, 4]), Err(ProtocolError::BufferFull));
    assert_eq!(seal::<1>(vec![]), Ok(vec![0]));
    assert_eq!(seal::<0>(vec![]), Err(ProtocolError::BufferFull));
}

#[test]
fn bad_frames_are_told_apart() {
    assert_eq!(from_bytes_cobs(&[]), Err(ProtocolError::BadFraming));
    assert_eq!(from_bytes_cobs(&[5, 1, 0]), Err(ProtocolError::BadFraming));
    assert_eq!(from_bytes_cobs(&[0]), Err(ProtocolError::BadMessage));
    assert_eq!(from_bytes_cobs(&[2, 9, 0]), Err(ProtocolError::BadMessage));
    assert_eq!(from_bytes_cobs(&[2, 5, 0]), Err(ProtocolError::BadMessage));
    assert_eq!(from_bytes_cobs(&[2, 4, 0, 77, 78]), Ok(Message::RST));
}

#[test]
fn feed_reports_what_the_input_came_to() {
    let mut accumulator: CobsAccumulator<8> = CobsAccumulator::new();
    assert!(matches!(accumulator.feed(&[]), FeedResult::Consumed));
    assert_eq!(accumulator.len(), 0);
    assert!(matches!(accumulator.feed(&[2]), FeedResult::Consumed));
    assert_eq!(accumulator.len(), 1);
    match accumulator.feed(&[4, 0, 9, 9]) {
        FeedResult::Success { data, remaining } => {
            assert_eq!(data, Message::RST);
            assert_eq!(remaining, &[9, 9]);
        }
        _ => panic!("no message"),
    }
    assert_eq!(accumulator.len(), 0);
    match accumulator.feed(&[9, 9, 0, 1]) {
        FeedResult::DeserError(rest) => assert_eq!(rest, &[1]),
        _ => panic!("no error"),
    }
    assert_eq!(accumulator.len(), 0);
    match accumulator.feed(&[1, 2, 3, 4, 5, 6, 7, 8, 0, 3]) {
        FeedResult::OverFull(rest) => assert_eq!(rest, &[3]),
        _ => panic!("not overfull"),
    }
    assert!(matches!(accumulator.feed(&[1, 2, 3]), FeedResult::Consumed));
    match accumulator.feed(&[4, 5, 6, 7, 8, 9, 10]) {
        FeedResult::OverFull(rest) => assert_eq!(rest, &[9, 10]),
        _ => panic!("not overfull"),
    }
    assert_eq!(accumulator.len(), 0);
    assert!(matches!(accumulator.feed(&[1, 2, 3, 4, 5, 6, 7, 8]), FeedResult::Consumed));
    assert_eq!(accumulator.len(), 8);
    match accumulator.feed(&[9]) {
        FeedResult::OverFull(rest) => assert_eq!(rest, &[9]),
        _ => panic!("not overfull"),
    }
    assert_eq!(accumulator.len(), 0);
    match accumulator.feed(&[0]) {
        FeedResult::DeserError(rest) => assert!(rest.is_empty()),
        _ => panic!("no error"),
    }
}

#[test]
fn the_accumulator_behaves_like_the_one_of_postcard() {
    let inputs: [&[u8]; 8] = [
        &[2],
        &[1, 5, 0, 9, 9],
        &[9, 9, 0, 1],
        &[1, 2, 3, 4, 5, 6, 7, 8, 0, 3],
        &[1, 2, 3],
        &[4, 5, 6, 7, 8, 9, 10],
        &[3, 1, 7, 0, 3, 1, 0x81, 0, 0],
        &[2, 1, 1, 0],
    ];
    let mut ours: CobsAccumulator<8> = CobsAccumulator::new();
    let mut theirs: postcard::accumulator::CobsAccumulator<8> =
        postcard::accumulator::CobsAccumulator::new();
    for input in inputs {
        let mut left = input;
        let mut right = input;
        loop {
            let mine = ours.feed(left);
            let other = theirs.feed::<(u32, u16)>(right);
            match (mine, other) {
                (FeedResult::Consumed, postcard::accumulator::FeedResult::Consumed) => break,
                (FeedResult::OverFull(a), postcard::accumulator::FeedResult::OverFull(b)) => {
                    assert_eq!(a, b);
                    left = a;
                    right = b;
                }
                (FeedResult::DeserError(a), postcard::accumulator::FeedResult::DeserError(b)) => {
                    assert_eq!(a, b);
                    left = a;
                    right = b;
                }
                (
                    FeedResult::Success { data, remaining },
                    postcard::accumulator::FeedResult::Success { data: pair, remaining: rest },
                ) => {
                    assert_eq!(data, Message::RQR(pair.1));
                    assert_eq!(pair.0, 1);
                    assert_eq!(remaining, rest);
                    left = remaining;
                    right = rest;
                }
                _ => panic!("the accumulators disagree on {:?}", input),
            }
            if left.is_empty() {
                break;
            }
        }
    }
}

#[test]
fn one_frame_split_anywhere_yields_its_message_once() {
    for message in samples() {
        let bytes = frame(&message);
        for cut in 0..=bytes.len() {
            let mut accumulator: CobsAccumulator<256> = CobsAccumulator::new();
            let mut found = drain(&mut accumulator, &bytes[..cut]);
            found.extend(drain(&mut accumulator, &bytes[cut..]));
            assert_eq!(found, vec![message], "cut at {}", cut);
            assert_eq!(accumulator.len(), 0);
        }
    }
}

#[test]
fn feeding_all_is_feeding_until_nothing_is_left() {
    let mut stream = Vec::new();
    for message in samples() {
        stream.extend(frame(&message));
        stream.extend_from_slice(&[9, 9, 0]);
    }
    stream.extend(vec![5u8; 300]);
    stream.extend_from_slice(&[2, 4]);
    for cut in [0, 1, 7, 100, stream.len()] {
        let mut stepwise: CobsAccumulator<256> = CobsAccumulator::new();
        let mut at_once: CobsAccumulator<256> = CobsAccumulator::new();
        let mut expected = drain(&mut stepwise, &stream[..cut]);
        expected.extend(drain(&mut stepwise, &stream[cut..]));
        let mut found = at_once.feed_all(&stream[..cut]);
        found.extend(at_once.feed_all(&stream[cut..]));
        assert_eq!(found, expected);
        assert_eq!(at_once.len(), stepwise.len());
    }
    let mut accumulator: CobsAccumulator<256> = CobsAccumulator::new();
    assert_eq!(accumulator.feed_all(&stream), samples());
    assert_eq!(accumulator.len(), 46);
    assert_eq!(accumulator.feed_all(&[0]), vec![]);
    assert_eq!(accumulator.len(), 0);
    let mut none: CobsAccumulator<0> = CobsAccumulator::new();
    assert_eq!(none.feed_all(&[2, 4, 0]), vec![]);
    let mut small: CobsAccumulator<3> = CobsAccumulator::new();
    assert_eq!(small.feed_all(&[2, 4, 0, 2, 1, 1, 0, 2, 4, 0]), vec![Message::RST, Message::RST]);
}

#[test]
fn one_frame_fed_byte_by_byte_yields_its_message_once() {
    let message = Message::B32(BurstSel::Sel1, BurstMemory32::from([0x0100; 16]));
    let mut accumulator: CobsAccumulator<256> = CobsAccumulator::new();
    let mut found = Vec::new();
    for byte in frame(&message) {
        found.extend(drain(&mut accumulator, &[byte]));
    }
    assert_eq!(found, vec![message]);
}

#[test]
fn noise_between_two_frames_costs_neither() {
    let one = Message::CFG(CFG::BurstSel(BurstSel::Sel1));
    let two = Message::RQR(0xBEEF);
    let noises: [&[u8]; 6] = [
        &[],
        &[0],
        &[0xFF, 0x00],
        &[0x05, 0x01, 0x02, 0x00, 0x00, 0x09, 0x00],
        &[0x02, 0x63, 0x00],
        &[0x07; 300],
    ];
    for noise in noises {
        let mut stream = frame(&one);
        stream.extend_from_slice(noise);
        if noise.len() == 300 {
            stream.push(0);
        }
        stream.extend(frame(&two));
        let mut accumulator: CobsAccumulator<256> = CobsAccumulator::new();
        assert_eq!(drain(&mut accumulator, &stream), vec![one, two]);
        assert_eq!(accumulator.len(), 0);
    }
}

#[test]
fn noise_that_is_no_whole_frame_runs_into_the_next_frame() {
    let one = Message::RST;
    let two = Message::RQR(7);
    let mut stream = frame(&one);
    stream.push(0x05);
    stream.extend(frame(&two));
    let mut accumulator: CobsAccumulator<256> = CobsAccumulator::new();
    assert_eq!(drain(&mut accumulator, &stream), vec![one]);
    let mut stream = frame(&one);
    stream.extend_from_slice(&[0x02, 0x04, 0x00]);
    stream.extend(frame(&two));
    let mut accumulator: CobsAccumulator<256> = CobsAccumulator::new();
    assert_eq!(drain(&mut accumulator, &stream), vec![one, Message::RST, two]);
}
