use exif::bytes::{read_u16, read_u32};
use exif::{ExifBlock, GpsBlock, Rtype, TagCategory, FMT};

#[test]
fn gps_names() {
    let g = GpsBlock::new();
    assert_eq!(g.gps_tags.len(), 32);
    assert_eq!(g.GetName(2).map(|s| s.as_str()), Some("Latitude"));
    assert_eq!(g.GetName(0x1f).map(|s| s.as_str()), Some("HPositioningError"));
    assert_eq!(g.GetName(0x40), None);
    assert_eq!(g.gps_tags[2].rtyp, Rtype::RTyp);
    assert_eq!(g.gps_tags[2].len, 3);
    assert_eq!(g.gps_tags[8].len, -1);
}

#[test]
fn exif_names() {
    let b = ExifBlock::default();
    assert_eq!(b.get_name(0x010F).map(|s| s.as_str()), Some("Make"));
    assert_eq!(b.get_name(0x83BB).map(|s| s.as_str()), Some("IPTC/NAA"));
    assert_eq!(b.get_name(0x1234), None);
    let t = b.get_tag(0x8825).expect("GPSInfo");
    assert_eq!(t.name, "GPSInfo");
    assert_eq!(t.category, TagCategory::GpsPointer);
    assert_eq!(b.get_tag(0xA005).unwrap().category, TagCategory::SubIfdPointer);
    assert_eq!(b.get_tag(0x0202).unwrap().category, TagCategory::ThumbnailLength);
    assert_eq!(b.get_tag(0xFFFF).unwrap().name, "UndefinedTag");
}

#[test]
fn format_codes() {
    assert_eq!(FMT::from(0), FMT::NONE);
    assert_eq!(FMT::from(5), FMT::URATIONAL);
    assert_eq!(FMT::from(12), FMT::DOUBLE);
    assert_eq!(FMT::from(13), FMT::NUM_FORMATS);
    let widths: Vec<usize> = (0..13).map(|c| FMT::from(c).bytes_per_component()).collect();
    assert_eq!(widths, vec![0, 1, 1, 2, 4, 8, 1, 1, 2, 4, 8, 4, 8]);
}

#[test]
fn byte_reader_orders() {
    let b = [0x12u8, 0x34, 0x56, 0x78];
    assert_eq!(read_u16(&b, 0, false), 0x3412);
    assert_eq!(read_u16(&b, 0, true), 0x1234);
    assert_eq!(read_u32(&b, 0, false), 0x7856_3412);
    assert_eq!(read_u32(&b, 0, true), 0x1234_5678);
}
