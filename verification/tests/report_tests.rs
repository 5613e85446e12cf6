use spd2010_touch::report::{parse_firmware_info, parse_touch_data, TouchData, TouchPoint, MAX_TOUCH_POINTS};

fn push_le16(buf: &mut Vec<u8>, v: u16) {
    buf.push((v & 0xff) as u8);
    buf.push((v >> 8) as u8);
}

fn report_header(count: u8, gesture: u8, flags: u8) -> Vec<u8> {
    let mut buf: Vec<u8> = vec![count, gesture, flags];
    push_le16(&mut buf, 0x0102); // down_x
    push_le16(&mut buf, 0x0304); // down_y
    push_le16(&mut buf, 0x0506); // up_x
    push_le16(&mut buf, 0x0708); // up_y
    buf
}

fn push_point(buf: &mut Vec<u8>, id: u8, x: u16, y: u16, weight: u8) {
    buf.push(id);
    push_le16(buf, x);
    push_le16(buf, y);
    buf.push(weight);
}

#[test]
fn firmware_info_fixed_offsets() {
    let mut buf: Vec<u8> = Vec::new();
    buf.extend_from_slice(&[0x01, 0x02, 0x03, 0x04]); // dummy
    buf.extend_from_slice(&[0x11, 0x22]); // dver
    buf.extend_from_slice(&[0xaa, 0xbb, 0xcc, 0xdd]); // pid
    buf.extend_from_slice(&[0x10, 0x20, 0x30, 0x40]); // ic_name_l
    buf.extend_from_slice(&[0x50, 0x60, 0x70, 0x80]); // ic_name_h
    let info = parse_firmware_info(&buf);
    assert_eq!(info.dummy, 0x04030201);
    assert_eq!(info.dver, 0x2211);
    assert_eq!(info.pid, 0xddccbbaa);
    assert_eq!(info.ic_name_l, 0x40302010);
    assert_eq!(info.ic_name_h, 0x80706050);
}

#[test]
fn firmware_info_short_buffer_reads_zero() {
    let info = parse_firmware_info(&[0x01, 0x02, 0x03, 0x04, 0x11]);
    assert_eq!(info.dummy, 0x04030201);
    assert_eq!(info.dver, 0x0011);
    assert_eq!(info.pid, 0);
    assert_eq!(info.ic_name_l, 0);
    assert_eq!(info.ic_name_h, 0);
}

#[test]
fn touch_data_two_points() {
    let mut buf = report_header(2, 5, 0b01);
    push_point(&mut buf, 1, 100, 200, 30);
    push_point(&mut buf, 2, 400, 500, 60);
    let data = parse_touch_data(&buf);
    assert_eq!(data.touch_count, 2);
    assert_eq!(data.gesture, 5);
    assert!(data.down);
    assert!(!data.up);
    assert_eq!(data.down_x, 0x0102);
    assert_eq!(data.down_y, 0x0304);
    assert_eq!(data.up_x, 0x0506);
    assert_eq!(data.up_y, 0x0708);
    assert_eq!(data.point_count(), 2);
    assert_eq!(data.point_at(0), TouchPoint { id: 1, x: 100, y: 200, weight: 30 });
    assert_eq!(data.point_at(1), TouchPoint { id: 2, x: 400, y: 500, weight: 60 });
    assert_eq!(data.points.as_slice().len(), 2);
}

#[test]
fn touch_data_overflow_truncates_to_max() {
    // 12 reported points: exactly MAX_TOUCH_POINTS are stored, the
    // reported count is preserved unclamped.
    let mut buf = report_header(12, 0, 0b10);
    for i in 0..12u8 {
        push_point(&mut buf, i, 10 * i as u16, 20 * i as u16, i);
    }
    let data = parse_touch_data(&buf);
    assert_eq!(data.touch_count, 12);
    assert_eq!(data.point_count(), MAX_TOUCH_POINTS);
    assert_eq!(data.points.as_slice().len(), 10);
    for i in 0..10usize {
        let p = data.point_at(i);
        assert_eq!(p.id, i as u8);
        assert_eq!(p.x, 10 * i as u16);
        assert_eq!(p.y, 20 * i as u16);
        assert_eq!(p.weight, i as u8);
    }
    assert!(data.up);
    assert!(!data.down);
}

#[test]
fn touch_data_exactly_ten_points() {
    let mut buf = report_header(10, 0, 0);
    for i in 0..10u8 {
        push_point(&mut buf, i, i as u16, i as u16, 1);
    }
    let data = parse_touch_data(&buf);
    assert_eq!(data.touch_count, 10);
    assert_eq!(data.point_count(), 10);
}

#[test]
fn touch_data_short_buffer_never_fails() {
    // Count says 3 but the buffer ends inside the second point: the
    // missing bytes read as zero and parsing still succeeds.
    let mut buf = report_header(3, 1, 0);
    push_point(&mut buf, 7, 11, 22, 33);
    buf.push(9); // second point: id only
    let data = parse_touch_data(&buf);
    assert_eq!(data.touch_count, 3);
    assert_eq!(data.point_count(), 3);
    assert_eq!(data.point_at(0), TouchPoint { id: 7, x: 11, y: 22, weight: 33 });
    assert_eq!(data.point_at(1), TouchPoint { id: 9, x: 0, y: 0, weight: 0 });
    assert_eq!(data.point_at(2), TouchPoint { id: 0, x: 0, y: 0, weight: 0 });

    let empty = parse_touch_data(&[]);
    assert_eq!(empty.touch_count, 0);
    assert_eq!(empty.point_count(), 0);
    assert_eq!(empty.gesture, 0);
    assert!(!empty.down);
    assert!(!empty.up);
}

#[test]
fn touch_data_default_is_empty() {
    let data = TouchData::default();
    assert_eq!(data.point_count(), 0);
    assert_eq!(data.touch_count, 0);
    assert_eq!(data.gesture, 0);
    assert!(!data.down);
    assert!(!data.up);
    assert_eq!((data.down_x, data.down_y, data.up_x, data.up_y), (0, 0, 0, 0));
    assert_eq!(TouchPoint::default(), TouchPoint { id: 0, x: 0, y: 0, weight: 0 });
    assert!(format!("{:?}", data).contains("touch_count"));
}
