use modbus_relay::crc::{calc_crc16, CRC16_TABLE};

fn bitwise_crc(data: &[u8]) -> u16 {
    let mut crc: u16 = 0xFFFF;
    for byte in data {
        crc ^= *byte as u16;
        for _ in 0..8 {
            if crc & 1 == 1 {
                crc = (crc >> 1) ^ 0xA001;
            } else {
                crc >>= 1;
            }
        }
    }
    crc
}

#[test]
fn crc_of_nothing_is_the_initial_value() {
    assert_eq!(calc_crc16(&[]), 0xFFFF);
}

#[test]
fn crc_matches_bit_by_bit_for_every_single_byte() {
    for byte in 0u8..=255 {
        assert_eq!(calc_crc16(&[byte]), bitwise_crc(&[byte]));
    }
}

#[test]
fn crc_of_known_frames() {
    assert_eq!(calc_crc16(&[0x11, 0x03, 0x00, 0x6B, 0x00, 0x03]), 0x8776);
    assert_eq!(calc_crc16(b"123456789"), 0x4B37);
    assert_eq!(
        calc_crc16(&[0x11, 0x03, 0x06, 0x02, 0x2B, 0x00, 0x00, 0x00, 0x64]),
        0xBAC8
    );
}

#[test]
fn crc_is_the_same_each_time() {
    let data = [0x01u8, 0x10, 0x00, 0x01, 0x00, 0x02, 0x04, 0x00, 0x0A, 0x01, 0x02];
    assert_eq!(calc_crc16(&data), calc_crc16(&data));
    assert_eq!(calc_crc16(&data), bitwise_crc(&data));
}

#[test]
fn appended_crc_verifies_and_any_bit_flip_is_caught() {
    let body = [0x11u8, 0x03, 0x06, 0x02, 0x2B, 0x00, 0x00, 0x00, 0x64];
    let crc = calc_crc16(&body);
    let mut frame = body.to_vec();
    frame.push((crc & 0xFF) as u8);
    frame.push((crc >> 8) as u8);
    let verifies = |f: &[u8]| {
        let n = f.len();
        calc_crc16(&f[..n - 2]) == (f[n - 2] as u16) | ((f[n - 1] as u16) << 8)
    };
    assert!(verifies(&frame));
    for index in 0..frame.len() {
        for bit in 0..8 {
            let mut damaged = frame.clone();
            damaged[index] ^= 1 << bit;
            assert!(!verifies(&damaged), "flip of bit {} in byte {} went unseen", bit, index);
        }
    }
}

#[test]
fn table_holds_the_remainder_of_each_index() {
    assert_eq!(CRC16_TABLE.len(), 256);
    assert_eq!(CRC16_TABLE[0], 0x0000);
    assert_eq!(CRC16_TABLE[1], 0xC0C1);
    assert_eq!(CRC16_TABLE[255], 0x4040);
    for i in 0..256usize {
        let mut reg = i as u16;
        for _ in 0..8 {
            reg = if reg & 1 == 1 { (reg >> 1) ^ 0xA001 } else { reg >> 1 };
        }
        assert_eq!(CRC16_TABLE[i], reg);
    }
}
