use adis_imu::burstmem::burst_size;
use adis_imu::burstmem::checksum_off;
use adis_imu::burstmem::data_cntr_off;
use adis_imu::burstmem::data_field_off;
use adis_imu::burstmem::data_field_size;
use adis_imu::burstmem::diag_stat_off;
use adis_imu::burstmem::temp_off;
use adis_imu::burstmem::BurstMemory;
use adis_imu::burstmem::BurstMemory16;
use adis_imu::burstmem::BurstMemory32;

fn sealed16(mut words: [u16; 10]) -> BurstMemory16 {
    let mut sum: u32 = 0;
    for word in &words[..9] {
        sum += (*word & 0xFF) as u32 + (*word >> 8) as u32;
    }
    words[9] = (sum % 65536) as u16;
    BurstMemory16::from(words)
}

#[test]
fn frame_layout_follows_the_precision() {
    assert_eq!(burst_size(16), 10);
    assert_eq!(burst_size(32), 16);
    assert_eq!(data_field_size(16), 6);
    assert_eq!(data_field_size(32), 12);
    assert_eq!(diag_stat_off(16), 0);
    assert_eq!(diag_stat_off(32), 0);
    assert_eq!(data_field_off(16), 1);
    assert_eq!(data_field_off(32), 1);
    assert_eq!(temp_off(16), 7);
    assert_eq!(temp_off(32), 13);
    assert_eq!(data_cntr_off(16), 8);
    assert_eq!(data_cntr_off(32), 14);
    assert_eq!(checksum_off(16), 9);
    assert_eq!(checksum_off(32), 15);
}

#[test]
fn fields_of_a_16_bit_frame() {
    let mem = BurstMemory16::from([0x0408, 1, 0xFFFF, 0x7FFF, 0x8000, 100, 0xFF9C, 0xFF38, 77, 0]);
    assert_eq!(mem.diag_stat(), 0x0408);
    assert_eq!(mem.xa(), 32768);
    assert_eq!(mem.ya(), -32768);
    assert_eq!(mem.za(), 32767 * 32768);
    assert_eq!(mem.xb(), -32768 * 32768);
    assert_eq!(mem.yb(), 100 * 32768);
    assert_eq!(mem.zb(), -100 * 32768);
    assert_eq!(mem.temp(), -200);
    assert_eq!(mem.data_cntr(), 77);
    assert_eq!(mem.checksum(), 0);
}

#[test]
fn fields_of_a_32_bit_frame() {
    let mem = BurstMemory32::from([
        2, 1, 0x4000, 0xFFFF, 0x8000, 0x7FFF, 0xFFFF, 0x8000, 0, 0, 1, 0xFFFE, 0xC000, 250, 9, 0x1234,
    ]);
    assert_eq!(mem.diag_stat(), 2);
    assert_eq!(mem.xa(), 32768 + 16384);
    assert_eq!(mem.ya(), -32768 + 32768);
    assert_eq!(mem.za(), 32767 * 32768 + 65535);
    assert_eq!(mem.xb(), -32768 * 32768);
    assert_eq!(mem.yb(), 1);
    assert_eq!(mem.zb(), -2 * 32768 + 49152);
    assert_eq!(mem.temp(), 250);
    assert_eq!(mem.data_cntr(), 9);
    assert_eq!(mem.checksum(), 0x1234);
}

#[test]
fn checksum_is_the_sum_of_the_bytes_before_it() {
    let mem = BurstMemory16::from([0x0102, 0x0304, 0, 0, 0, 0, 0, 0, 0xFFFF, 10 + 510]);
    assert!(!mem.is_corrupted());
    let off = BurstMemory16::from([0x0102, 0x0304, 0, 0, 0, 0, 0, 0, 0xFFFF, 10 + 511]);
    assert!(off.is_corrupted());
    assert!(!BurstMemory16::default().is_corrupted());
    assert!(!BurstMemory32::default().is_corrupted());
    let mut wide = [0xFFFFu16; 16];
    wide[15] = 15 * 510;
    assert!(!BurstMemory32::from(wide).is_corrupted());
    wide[15] = 15 * 510 + 1;
    assert!(BurstMemory32::from(wide).is_corrupted());
}

#[test]
fn any_single_bit_flip_in_the_payload_is_detected() {
    let good = sealed16([0x0000, 0x1234, 0xFFFF, 0x8001, 0x00FF, 0xFF00, 0x7F80, 0x00E6, 0x0A0B, 0]);
    assert!(!good.is_corrupted());
    for word in 0..9 {
        for bit in 0..16 {
            let mut data = good.data;
            data[word] ^= 1 << bit;
            assert!(BurstMemory16::from(data).is_corrupted(), "word {} bit {}", word, bit);
        }
    }
    assert!(!BurstMemory16::from(good.data).is_corrupted());
}

#[test]
fn frames_compare_by_their_words() {
    let a = BurstMemory16::from([1, 2, 3, 4, 5, 6, 7, 8, 9, 10]);
    let b = BurstMemory16::from([1, 2, 3, 4, 5, 6, 7, 8, 9, 10]);
    let c = BurstMemory16::from([1, 2, 3, 4, 5, 6, 7, 8, 9, 11]);
    assert_eq!(a, b);
    assert_ne!(a, c);
    assert_eq!(BurstMemory32::default(), BurstMemory32::from([0; 16]));
    assert_ne!(BurstMemory32::default(), BurstMemory32::from([1; 16]));
}
