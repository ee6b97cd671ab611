use max30102::bus::{address_bytes, write_bytes};
use max30102::decode::{channel, decode, Sample};
use max30102::fifo::available_from_pointers;
use max30102::quality::{classify, classify_presence, classify_ratio, Presence, RatioVerdict};
use max30102::registers::{config_entry, REG_FIFO_CONFIG, REG_INTR_ENABLE_1, CONFIG_LEN};
use max30102::text::{format_u32, value_line};

#[test]
fn available_wraps_modulo_32() {
    assert_eq!(available_from_pointers(3, 30), 5);
    assert_eq!(available_from_pointers(30, 3), 27);
    assert_eq!(available_from_pointers(7, 7), 0);
}

#[test]
fn available_on_raw_bytes_beyond_five_bits() {
    assert_eq!(available_from_pointers(255, 0), 31);
    assert_eq!(available_from_pointers(0, 255), 1);
    assert_eq!(available_from_pointers(64, 32), 0);
    for w in 0..=255u16 {
        for r in 0..=255u16 {
            let expected = ((w as i32 - r as i32).rem_euclid(32)) as u8;
            assert_eq!(available_from_pointers(w as u8, r as u8), expected);
        }
    }
}

#[test]
fn decode_example_frame() {
    let s = decode([0x01, 0x00, 0x00, 0x00, 0xFF, 0xFF]);
    assert_eq!(s, Sample { red: 65536, ir: 65535 });
}

#[test]
fn decode_masks_upper_bits() {
    let s = decode([0xFF; 6]);
    assert_eq!(s.red, 0x3FFFF);
    assert_eq!(s.ir, 0x3FFFF);
    assert_eq!(channel(0x04, 0x00, 0x01), 1);
    assert_eq!(channel(0x03, 0x12, 0x34), 0x31234);
    let z = decode([0; 6]);
    assert_eq!(z, Sample { red: 0, ir: 0 });
}

#[test]
fn classifier_tissue_and_ratio_ok() {
    let v = classify(Sample { red: 15000, ir: 15000 });
    assert_eq!(v.presence, Presence::TissueDetected);
    assert_eq!(v.ratio, RatioVerdict::Acceptable);
}

#[test]
fn classifier_poor_contact_regardless_of_ratio() {
    let v = classify(Sample { red: 5000, ir: 15000 });
    assert_eq!(v.presence, Presence::PoorContact);
    assert_eq!(classify_presence(15000, 5000), Presence::PoorContact);
    assert_eq!(classify_presence(10000, 15000), Presence::PoorContact);
    assert_eq!(classify_presence(10001, 10001), Presence::TissueDetected);
}

#[test]
fn ratio_zero_channel_b_needs_reposition() {
    assert_eq!(classify_ratio(0, 0), RatioVerdict::Reposition);
    assert_eq!(classify_ratio(15000, 0), RatioVerdict::Reposition);
    assert_eq!(classify_ratio(u32::MAX, 0), RatioVerdict::Reposition);
}

#[test]
fn ratio_bounds_are_open() {
    assert_eq!(classify_ratio(50, 100), RatioVerdict::Reposition);
    assert_eq!(classify_ratio(51, 100), RatioVerdict::Acceptable);
    assert_eq!(classify_ratio(200, 100), RatioVerdict::Reposition);
    assert_eq!(classify_ratio(199, 100), RatioVerdict::Acceptable);
    assert_eq!(classify_ratio(u32::MAX, u32::MAX), RatioVerdict::Acceptable);
}

#[test]
fn decimal_rendering() {
    assert_eq!(format_u32(0), b"0".to_vec());
    assert_eq!(format_u32(7), b"7".to_vec());
    assert_eq!(format_u32(10), b"10".to_vec());
    assert_eq!(format_u32(65536), b"65536".to_vec());
    assert_eq!(format_u32(u32::MAX), b"4294967295".to_vec());
}

#[test]
fn value_line_ends_with_crlf() {
    assert_eq!(value_line(b"RED=", 123), b"RED=123\r\n".to_vec());
    assert_eq!(value_line(b"", 0), b"0\r\n".to_vec());
}

#[test]
fn register_protocol_bytes() {
    assert_eq!(write_bytes(0x09, 0x40), [0x09, 0x40]);
    assert_eq!(address_bytes(0xFF), [0xFF]);
}

#[test]
fn configuration_table_order() {
    assert_eq!(CONFIG_LEN, 6);
    assert_eq!(config_entry(0), (REG_FIFO_CONFIG, 0x1F));
    assert_eq!(config_entry(1), (0x09, 0x02));
    assert_eq!(config_entry(2), (0x0A, 0x27));
    assert_eq!(config_entry(3), (0x0C, 0x3F));
    assert_eq!(config_entry(4), (0x0D, 0x00));
    assert_eq!(config_entry(5), (REG_INTR_ENABLE_1, 0x80));
}
