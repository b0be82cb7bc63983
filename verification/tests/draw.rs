use gopherbadge::draw::Draw;
use gopherbadge::geometry::{Point, Rectangle, Size};

fn area(i: i32) -> Rectangle {
    Rectangle::new(Point::new(i, -i), Size::new(i as u32 + 1, 2))
}

#[test]
fn new_record_is_empty() {
    assert!(Draw::new().recorded().is_empty());
}

#[test]
fn record_keeps_the_order() {
    let mut draw = Draw::new();
    assert!(draw.record(area(3)));
    assert!(draw.record(area(1)));
    assert!(draw.record(area(2)));
    assert_eq!(draw.recorded(), vec![area(3), area(1), area(2)]);
}

#[test]
fn record_takes_thirty_two_areas() {
    let mut draw = Draw::new();
    for i in 0..32 {
        assert!(draw.record(area(i)));
    }
    assert!(!draw.record(area(99)));
    assert!(!draw.record(area(100)));
    let all = draw.recorded();
    assert_eq!(all.len(), 32);
    assert_eq!(all[0], area(0));
    assert_eq!(all[31], area(31));
}

#[test]
fn picture_is_read_and_its_area_recorded() {
    let mut file = Vec::new();
    file.extend_from_slice(b"BM");
    file.extend_from_slice(&62u32.to_le_bytes());
    file.extend_from_slice(&[0, 0, 0, 0]);
    file.extend_from_slice(&54u32.to_le_bytes());
    file.extend_from_slice(&40u32.to_le_bytes());
    file.extend_from_slice(&2i32.to_le_bytes());
    file.extend_from_slice(&1i32.to_le_bytes());
    file.extend_from_slice(&1u16.to_le_bytes());
    file.extend_from_slice(&24u16.to_le_bytes());
    file.extend_from_slice(&0u32.to_le_bytes());
    file.extend_from_slice(&8u32.to_le_bytes());
    file.extend_from_slice(&[0; 16]);
    file.extend_from_slice(&[0, 0, 255, 255, 0, 0, 0, 0]);
    let mut draw = Draw::new();
    let picture = draw.bmp(&file, 7, 9).unwrap();
    assert_eq!(picture.pixels, vec![0xf800, 0x001f]);
    assert_eq!(draw.recorded(), vec![Rectangle::new(Point::new(7, 9), Size::new(2, 1))]);
    assert!(draw.bmp(b"nothing", 0, 0).is_none());
    assert_eq!(draw.recorded().len(), 1);
    for i in 0..31 {
        assert!(draw.record(area(i)));
    }
    assert!(draw.bmp(&file, 0, 0).is_none());
    assert_eq!(draw.recorded().len(), 32);
}
