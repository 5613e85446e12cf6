use spd2010_touch::status::{
    decode_status_high, decode_status_low, decode_touch_status, parse_hdp_status,
    parse_touch_status, StatusLow,
};

fn status_low_flags(s: StatusLow) -> [bool; 8] {
    [s.pt_exist, s.gesture, s.key, s.aux, s.keep, s.raw_or_pt, s.none6, s.none7]
}

#[test]
fn status_low_documented_bits() {
    let s = decode_status_low(0b0010_0101);
    assert!(s.pt_exist);
    assert!(!s.gesture);
    assert!(s.key);
    assert!(!s.aux);
    assert!(!s.keep);
    assert!(s.raw_or_pt);
    assert!(!s.none6);
    assert!(!s.none7);

    let all = decode_status_low(0xff);
    assert_eq!(status_low_flags(all), [true; 8]);
    let none = decode_status_low(0x00);
    assert_eq!(status_low_flags(none), [false; 8]);
}

#[test]
fn status_low_single_bit_flip_changes_one_flag() {
    for b in 0..=255u8 {
        for i in 0..8u8 {
            let base = status_low_flags(decode_status_low(b));
            let flipped = status_low_flags(decode_status_low(b ^ (1 << i)));
            for j in 0..8usize {
                assert_eq!(base[j] != flipped[j], j == i as usize);
            }
        }
    }
}

#[test]
fn status_high_documented_bits() {
    let s = decode_status_high(0b1010_1000);
    assert!(!s.none0);
    assert!(!s.none1);
    assert!(!s.none2);
    assert!(s.cpu_run);
    assert!(!s.tint_low);
    assert!(s.tic_in_cpu);
    assert!(!s.tic_in_bios);
    assert!(s.tic_busy);
}

#[test]
fn touch_status_read_len_is_little_endian() {
    let s = decode_touch_status(0x01, 0x08, 0x34, 0x12);
    assert!(s.status_low.pt_exist);
    assert!(s.status_high.cpu_run);
    assert_eq!(s.read_len, 0x1234);
}

#[test]
fn touch_status_from_buffer() {
    let s = parse_touch_status(&[0x01, 0x80, 0xe8, 0x03]);
    assert!(s.status_low.pt_exist);
    assert!(!s.status_low.gesture);
    assert!(s.status_high.tic_busy);
    assert!(!s.status_high.cpu_run);
    assert_eq!(s.read_len, 1000);

    // A short buffer decodes with the missing bytes read as zero.
    let short = parse_touch_status(&[0x03]);
    assert!(short.status_low.pt_exist);
    assert!(short.status_low.gesture);
    assert_eq!(short.read_len, 0);
    assert!(!short.status_high.tic_busy);
}

#[test]
fn hdp_status_fields() {
    let s = parse_hdp_status(&[0xaa, 0x10, 0x02]);
    assert_eq!(s.status, 0xaa);
    assert_eq!(s.next_packet_len, 0x0210);
}

#[test]
fn hdp_status_short_buffer_reads_zero() {
    let s = parse_hdp_status(&[0x07]);
    assert_eq!(s.status, 0x07);
    assert_eq!(s.next_packet_len, 0);

    let empty = parse_hdp_status(&[]);
    assert_eq!(empty.status, 0);
    assert_eq!(empty.next_packet_len, 0);
}
