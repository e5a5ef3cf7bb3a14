use base64::Engine;
use exif::{ExifBlock, ExifError, ExifNode, ExifValue, FMT};

/// Little or big endian writer for hand-built segments.
struct Seg {
    bytes: Vec<u8>,
    be: bool,
}

impl Seg {
    /// `Exif\0\0`, the TIFF header, and the first directory at TIFF offset 8.
    fn new(be: bool) -> Seg {
        let mut s = Seg { bytes: b"Exif\0\0".to_vec(), be };
        s.bytes.extend_from_slice(if be { b"MM" } else { b"II" });
        s.u16(0x2A);
        s.u32(8);
        s
    }
    fn u16(&mut self, v: u16) {
        let b = if self.be { v.to_be_bytes() } else { v.to_le_bytes() };
        self.bytes.extend_from_slice(&b);
    }
    fn u32(&mut self, v: u32) {
        let b = if self.be { v.to_be_bytes() } else { v.to_le_bytes() };
        self.bytes.extend_from_slice(&b);
    }
    fn raw(&mut self, b: &[u8]) {
        self.bytes.extend_from_slice(b);
    }
    /// Current TIFF offset (relative to byte 6 of the segment).
    fn off(&self) -> u32 {
        (self.bytes.len() - 6) as u32
    }
    /// An entry whose 4-byte value field holds `v` as a u32.
    fn entry32(&mut self, tag: u16, fmt: u16, count: u32, v: u32) {
        self.u16(tag);
        self.u16(fmt);
        self.u32(count);
        self.u32(v);
    }
    /// An entry whose 4-byte value field holds a u16 padded with zeros.
    fn entry16(&mut self, tag: u16, fmt: u16, count: u32, v: u16) {
        self.u16(tag);
        self.u16(fmt);
        self.u32(count);
        self.u16(v);
        self.u16(0);
    }
    /// An entry whose 4-byte value field holds raw bytes.
    fn entry_raw(&mut self, tag: u16, fmt: u16, count: u32, v: [u8; 4]) {
        self.u16(tag);
        self.u16(fmt);
        self.u32(count);
        self.raw(&v);
    }
}

fn parse(bytes: &[u8]) -> (ExifBlock, Result<(), ExifError>) {
    let mut b = ExifBlock::new();
    let r = b.open(bytes, bytes.len());
    (b, r)
}

fn two_entry_dir(be: bool) -> Vec<u8> {
    let mut s = Seg::new(be);
    // directory at 8: 2 entries, next link 0, then the string data at 8+2+24+4 = 38
    s.u16(2);
    s.entry16(0x0100, 3, 1, 100);
    s.entry32(0x010F, 2, 5, 38);
    s.u32(0);
    assert_eq!(s.off(), 38);
    s.raw(b"Acme\0");
    s.bytes
}

fn entry<'a>(b: &'a ExifBlock, name: &str) -> &'a exif::ExifEntry {
    let mut found = None;
    for n in b.nodes() {
        if let ExifNode::Tag(e) = n {
            if e.name == name {
                found = Some(e);
            }
        }
    }
    found.expect("tag present")
}

fn gps_entries(b: &ExifBlock) -> &Vec<exif::ExifEntry> {
    for n in b.nodes() {
        if let ExifNode::Gps(v) = n {
            return v;
        }
    }
    panic!("no GPS node")
}

#[test]
fn little_endian_two_entries() {
    let bytes = two_entry_dir(false);
    let (b, r) = parse(&bytes);
    assert_eq!(r, Ok(()));
    assert_eq!(b.nodes().len(), 2);
    let w = entry(&b, "ImageWidth");
    assert_eq!(w.format, FMT::USHORT);
    assert_eq!(w.count, 1);
    assert!(matches!(w.val, ExifValue::UShort(100)));
    let m = entry(&b, "Make");
    assert_eq!(m.format, FMT::STRING);
    assert_eq!(m.count, 5);
    match &m.val {
        ExifValue::Text(t) => assert_eq!(t, "Acme"),
        v => panic!("unexpected {:?}", v),
    }
    assert_eq!(m.offset, 6 + 38);
    assert!(b.warnings().is_empty());
    assert_eq!(b.raw_exif_length(), bytes.len());
}

#[test]
fn big_endian_decodes_identically() {
    let (le, rl) = parse(&two_entry_dir(false));
    let (be, rb) = parse(&two_entry_dir(true));
    assert_eq!(rl, Ok(()));
    assert_eq!(rb, Ok(()));
    assert_eq!(format!("{:?}", le.nodes()), format!("{:?}", be.nodes()));
    assert!(matches!(be.get_value("ImageWidth"), Some(ExifValue::UShort(100))));
}

#[test]
fn nested_pointer_chain_hits_nesting_limit() {
    // Each directory holds one ExifOffset entry pointing at the next one.
    let mut s = Seg::new(false);
    for k in 0..6u32 {
        let here = s.off();
        assert_eq!(here, 8 + 18 * k);
        s.u16(1);
        s.entry32(0x8769, 4, 1, here + 18);
        s.u32(0);
    }
    s.u16(0);
    s.u32(0);
    let (b, r) = parse(&s.bytes);
    assert_eq!(r, Ok(()));
    assert!(b.warnings().contains(&ExifError::MaxNestingExceeded));
}

#[test]
fn self_referencing_pointer_terminates() {
    let mut s = Seg::new(false);
    s.u16(1);
    s.entry32(0x8769, 4, 1, 8);
    s.u32(8);
    let (b, r) = parse(&s.bytes);
    assert_eq!(r, Ok(()));
    assert!(b.warnings().contains(&ExifError::MaxNestingExceeded));
    assert!(b.warnings().contains(&ExifError::LinkChainTooLong));
    assert!(b.warnings().iter().all(|w| *w == ExifError::MaxNestingExceeded
        || *w == ExifError::LinkChainTooLong));
}

#[test]
fn next_links_stay_at_same_level() {
    // Five directories chained only by next links; the tag is in the fifth.
    let mut s = Seg::new(false);
    for k in 0..4u32 {
        assert_eq!(s.off(), 8 + 6 * k);
        s.u16(0);
        s.u32(8 + 6 * (k + 1));
    }
    s.u16(1);
    s.entry16(0x0100, 3, 1, 55);
    s.u32(0);
    let (b, r) = parse(&s.bytes);
    assert_eq!(r, Ok(()));
    assert!(b.warnings().is_empty());
    assert!(matches!(b.get_value("ImageWidth"), Some(ExifValue::UShort(55))));
}

#[test]
fn next_link_chain_is_bounded() {
    // 20 empty directories chained by next links, then one with a tag.
    let mut s = Seg::new(false);
    for k in 0..20u32 {
        s.u16(0);
        s.u32(8 + 6 * (k + 1));
    }
    s.u16(1);
    s.entry16(0x0100, 3, 1, 55);
    s.u32(0);
    let (b, r) = parse(&s.bytes);
    assert_eq!(r, Ok(()));
    assert_eq!(b.warnings(), &vec![ExifError::LinkChainTooLong]);
    assert!(b.get_value("ImageWidth").is_none());
}

#[test]
fn oversized_directory_rejected() {
    let mut s = Seg::new(false);
    s.u16(5000);
    while s.bytes.len() < 40 {
        s.raw(&[0]);
    }
    assert_eq!(s.bytes.len(), 40);
    let (_, r) = parse(&s.bytes);
    assert_eq!(r, Err(ExifError::IllegalDirectorySize));
}

#[test]
fn directory_cut_at_its_end_is_tolerated() {
    // Two bytes of the next link missing, and the whole link missing.
    let mut s = Seg::new(false);
    s.u16(1);
    s.entry16(0x0100, 3, 1, 7);
    let mut cut2 = s.bytes.clone();
    cut2.extend_from_slice(&[0, 0]);
    let (b, r) = parse(&cut2);
    assert_eq!(r, Ok(()));
    assert!(matches!(b.get_value("ImageWidth"), Some(ExifValue::UShort(7))));
    let (b, r) = parse(&s.bytes);
    assert_eq!(r, Ok(()));
    assert!(matches!(b.get_value("ImageWidth"), Some(ExifValue::UShort(7))));
    let mut cut1 = s.bytes.clone();
    cut1.push(0);
    let (_, r) = parse(&cut1);
    assert_eq!(r, Err(ExifError::IllegalDirectorySize));
}

#[test]
fn value_pointer_beyond_segment_rejected() {
    let mut s = Seg::new(false);
    s.u16(1);
    s.entry32(0x010F, 2, 10, 30);
    s.u32(0);
    let (_, r) = parse(&s.bytes);
    assert_eq!(r, Err(ExifError::IllegalValuePointer));
}

#[test]
fn illegal_format_rejected() {
    let mut s = Seg::new(false);
    s.u16(1);
    s.entry32(0x0100, 13, 1, 0);
    s.u32(0);
    let (_, r) = parse(&s.bytes);
    assert_eq!(r, Err(ExifError::IllegalFormat));
}

fn byte_run(n: u32) -> (Vec<u8>, Vec<u8>) {
    let mut s = Seg::new(false);
    s.u16(1);
    s.entry32(0x828E, 1, n, 26);
    s.u32(0);
    assert_eq!(s.off(), 26);
    let data: Vec<u8> = (0..n).map(|i| (i * 7 + 3) as u8).collect();
    s.raw(&data);
    (s.bytes, data)
}

#[test]
fn byte_run_of_120_is_inline() {
    let (bytes, data) = byte_run(120);
    let (b, r) = parse(&bytes);
    assert_eq!(r, Ok(()));
    match b.get_value("CFAPattern") {
        Some(ExifValue::Bytes(v)) => assert_eq!(v, &data),
        v => panic!("unexpected {:?}", v),
    }
}

#[test]
fn byte_run_of_121_is_base64() {
    let (bytes, data) = byte_run(121);
    let (b, r) = parse(&bytes);
    assert_eq!(r, Ok(()));
    match b.get_value("CFAPattern") {
        Some(ExifValue::Base64(t)) => {
            assert_eq!(t, &base64::engine::general_purpose::STANDARD.encode(&data));
            assert_eq!(t.len(), 164);
            assert!(t.as_bytes() != &data[..]);
        }
        v => panic!("unexpected {:?}", v),
    }
}

#[test]
fn sbyte_runs_are_signed() {
    let mut s = Seg::new(false);
    s.u16(1);
    s.entry_raw(0x0001, 6, 3, [0xFF, 0x80, 0x7F, 0]);
    s.u32(0);
    let (b, r) = parse(&s.bytes);
    assert_eq!(r, Ok(()));
    match b.get_value("InteropIndex") {
        Some(ExifValue::SignedBytes(v)) => assert_eq!(v, &vec![-1i8, -128, 127]),
        v => panic!("unexpected {:?}", v),
    }
}

fn gps_segment(lat: &[(u32, u32)], lat_fmt: u16) -> Vec<u8> {
    let mut s = Seg::new(false);
    // IFD0 at 8: Make, GPSInfo, Model, DateTimeOriginal (via Exif sub-IFD); next 0.
    // Layout: IFD0 = 2 + 4*12 + 4 = 54 bytes -> ends at 62.
    s.u16(4);
    s.entry_raw(0x010F, 2, 4, *b"Cam\0");
    s.entry32(0x8825, 4, 1, 62);
    s.entry_raw(0x0110, 2, 3, *b"X1\0\0");
    s.entry32(0x8769, 4, 1, 62 + 2 + 24 + 4 + 24);
    s.u32(0);
    assert_eq!(s.off(), 62);
    // GPS IFD at 62: LatitudeRef and Latitude; data at 62+30 = 92.
    s.u16(2);
    s.entry_raw(0x0001, 2, 2, *b"N\0\0\0");
    s.entry32(0x0002, lat_fmt, lat.len() as u32, 92);
    s.u32(0);
    assert_eq!(s.off(), 92);
    for (n, d) in lat {
        s.u32(*n);
        s.u32(*d);
    }
    assert_eq!(s.off(), 116);
    // Exif sub-IFD at 116: DateTimeOriginal with a 20-byte string at 134.
    s.u16(1);
    s.entry32(0x9003, 2, 20, 134);
    s.u32(0);
    assert_eq!(s.off(), 134);
    s.raw(b"2024:01:02 03:04:05\0");
    s.bytes
}

#[test]
fn gps_latitude_rationals_in_order() {
    let bytes = gps_segment(&[(40, 1), (26, 1), (46, 1)], 5);
    let (b, r) = parse(&bytes);
    assert_eq!(r, Ok(()));
    let gps = gps_entries(&b);
    assert_eq!(gps.len(), 2);
    assert_eq!(gps[0].name, "LatitudeRef");
    assert!(matches!(&gps[0].val, ExifValue::Text(t) if t == "N"));
    assert_eq!(gps[1].name, "Latitude");
    match &gps[1].val {
        ExifValue::URational(v) => assert_eq!(v, &vec![(40, 1), (26, 1), (46, 1)]),
        v => panic!("unexpected {:?}", v),
    }
    assert!(b.warnings().is_empty());
    assert!(matches!(b.get_value("DateTimeOriginal"), Some(ExifValue::Text(t)) if t == "2024:01:02 03:04:05"));
}

#[test]
fn gps_kind_mismatch_is_a_warning() {
    let bytes = gps_segment(&[(40, 1), (26, 1), (46, 1)], 4);
    let (b, r) = parse(&bytes);
    assert_eq!(r, Ok(()));
    assert_eq!(b.warnings(), &vec![ExifError::GpsKindMismatch]);
    let gps = gps_entries(&b);
    // Three ULONGs hold twelve bytes: one rational, read by the declared kind.
    assert_eq!(gps[1].format, FMT::URATIONAL);
    assert_eq!(gps[1].count, 1);
    match &gps[1].val {
        ExifValue::URational(v) => assert_eq!(v, &vec![(40, 1)]),
        v => panic!("unexpected {:?}", v),
    }
}

#[test]
fn corrupt_gps_does_not_hide_parent_tags() {
    let mut bytes = gps_segment(&[(40, 1), (26, 1), (46, 1)], 5);
    // GPS directory claims 5000 entries.
    bytes[6 + 62] = 0x88;
    bytes[6 + 63] = 0x13;
    let (b, r) = parse(&bytes);
    assert_eq!(r, Ok(()));
    assert_eq!(b.warnings(), &vec![ExifError::IllegalDirectorySize]);
    assert!(matches!(b.get_value("Make"), Some(ExifValue::Text(t)) if t == "Cam"));
    assert!(matches!(b.get_value("Model"), Some(ExifValue::Text(t)) if t == "X1"));
    assert!(matches!(b.get_value("DateTimeOriginal"), Some(ExifValue::Text(t)) if t == "2024:01:02 03:04:05"));
    assert!(b.nodes().iter().all(|n| matches!(n, ExifNode::Tag(_))));
}

#[test]
fn unknown_tag_goes_to_undefined_bucket() {
    let mut s = Seg::new(false);
    s.u16(2);
    s.entry16(0x1234, 3, 1, 9);
    s.entry16(0x0100, 3, 1, 10);
    s.u32(0);
    let (b, r) = parse(&s.bytes);
    assert_eq!(r, Ok(()));
    assert_eq!(entry(&b, "UndefinedTag").count, 1);
    assert!(matches!(b.get_value("UndefinedTag"), Some(ExifValue::UShort(9))));
    assert!(matches!(b.get_value("ImageWidth"), Some(ExifValue::UShort(10))));
}

#[test]
fn header_errors() {
    let good = two_entry_dir(false);
    let mut no_marker = good.clone();
    no_marker[0] = b'e';
    assert_eq!(parse(&no_marker).1, Err(ExifError::NoExifHeader));
    let mut order = good.clone();
    order[6] = b'I';
    order[7] = b'M';
    assert_eq!(parse(&order).1, Err(ExifError::InvalidByteOrder));
    let mut magic = good.clone();
    magic[8] = 0x2B;
    assert_eq!(parse(&magic).1, Err(ExifError::InvalidTiffMagic));
    let mut first = good.clone();
    first[10] = 7;
    assert_eq!(parse(&first).1, Err(ExifError::SuspiciousFirstOffset));
    let mut far = good.clone();
    far[10] = 0x01;
    far[11] = 0x7D; // 32001
    assert_eq!(parse(&far).1, Err(ExifError::SuspiciousFirstOffset));
    assert_eq!(parse(&good[..12]).1, Err(ExifError::TruncatedHeader));
    assert_eq!(parse(b"Exi").1, Err(ExifError::NoExifHeader));
    let mut b = ExifBlock::new();
    assert_eq!(b.open(&good, good.len() + 1), Err(ExifError::InvalidLength));
    assert!(b.nodes().is_empty());
}

#[test]
fn first_offset_past_segment_is_directory_error() {
    let mut s = two_entry_dir(false);
    s[10] = 200;
    assert_eq!(parse(&s).1, Err(ExifError::IllegalDirectorySize));
}

#[test]
fn subdir_link_out_of_range_is_warning() {
    let mut s = Seg::new(false);
    s.u16(2);
    s.entry32(0x8769, 4, 1, 5000);
    s.entry16(0x0100, 3, 1, 3);
    s.u32(0);
    let (b, r) = parse(&s.bytes);
    assert_eq!(r, Ok(()));
    assert_eq!(b.warnings(), &vec![ExifError::IllegalSubdirLink]);
    assert!(matches!(b.get_value("ImageWidth"), Some(ExifValue::UShort(3))));
}

#[test]
fn next_directory_and_thumbnail() {
    let mut s = Seg::new(false);
    // IFD0 at 8 with one entry, next link to IFD1 at 26.
    s.u16(1);
    s.entry16(0x0112, 3, 1, 1);
    s.u32(26);
    assert_eq!(s.off(), 26);
    // IFD1: thumbnail offset 56, length 4; next 0. Ends at 26 + 2 + 24 + 4 = 56.
    s.u16(2);
    s.entry32(0x0201, 4, 1, 56);
    s.entry32(0x0202, 4, 1, 4);
    s.u32(0);
    assert_eq!(s.off(), 56);
    s.raw(&[0xFF, 0xD8, 0xFF, 0xD9]);
    let (b, r) = parse(&s.bytes);
    assert_eq!(r, Ok(()));
    assert_eq!(b.nodes().len(), 1);
    assert!(matches!(b.get_value("Orientation"), Some(ExifValue::UShort(1))));
    assert_eq!(b.thumbnail(), Some((62, 4)));
    assert_eq!(b.last_referenced_offset(), 6 + 52);
    assert!(b.get_value("ThumbnailOffset").is_none());
}

#[test]
fn thumbnail_beyond_segment_not_recorded() {
    let mut s = Seg::new(false);
    s.u16(2);
    s.entry32(0x0201, 4, 1, 30);
    s.entry32(0x0202, 4, 1, 400);
    s.u32(0);
    let (b, r) = parse(&s.bytes);
    assert_eq!(r, Ok(()));
    assert_eq!(b.thumbnail(), None);
}

#[test]
fn scalar_encodings() {
    let mut s = Seg::new(true);
    s.u16(8);
    s.entry16(0x0100, 8, 1, 0xFFFE); // SSHORT -2
    s.entry32(0x0101, 9, 1, 0xFFFF_FFF9); // SLONG -7
    s.entry32(0x0102, 4, 1, 70000); // ULONG
    s.entry32(0x0103, 11, 1, 0x3FC0_0000); // SINGLE 1.5
    s.entry32(0x0106, 12, 1, 2 + 8 * 12 + 4 + 8); // DOUBLE at 110
    s.entry32(0x010A, 3, 0, 0); // USHORT, no components
    s.entry32(0x010D, 10, 1, 118); // SRATIONAL at 118
    s.entry32(0x010E, 0, 1, 0); // NONE
    s.u32(0);
    assert_eq!(s.off(), 110);
    s.raw(&0.25f64.to_be_bytes());
    s.u32(0xFFFF_FFFF);
    s.u32(3);
    let (b, r) = parse(&s.bytes);
    assert_eq!(r, Ok(()));
    assert!(matches!(b.get_value("ImageWidth"), Some(ExifValue::SShort(-2))));
    assert!(matches!(b.get_value("ImageLength"), Some(ExifValue::SLong(-7))));
    assert!(matches!(b.get_value("BitsPerSample"), Some(ExifValue::ULong(70000))));
    match b.get_value("Compression") {
        Some(ExifValue::Single(bits)) => assert_eq!(f32::from_bits(*bits), 1.5),
        v => panic!("unexpected {:?}", v),
    }
    match b.get_value("PhotometricInterpretation") {
        Some(ExifValue::Double(bits)) => assert_eq!(f64::from_bits(*bits), 0.25),
        v => panic!("unexpected {:?}", v),
    }
    assert!(matches!(b.get_value("FillOrder"), Some(ExifValue::Missing)));
    match b.get_value("DocumentName") {
        Some(ExifValue::SRational(v)) => assert_eq!(v, &vec![(-1, 3)]),
        v => panic!("unexpected {:?}", v),
    }
    assert!(matches!(b.get_value("ImageDescription"), Some(ExifValue::Missing)));
}

#[test]
fn text_stops_at_nul_and_replaces_invalid_utf8() {
    let mut s = Seg::new(false);
    s.u16(2);
    s.entry_raw(0x010F, 2, 4, *b"ab\0c");
    s.entry_raw(0x0110, 7, 3, [b'x', 0xFF, b'y', 0]);
    s.u32(0);
    let (b, r) = parse(&s.bytes);
    assert_eq!(r, Ok(()));
    assert!(matches!(b.get_value("Make"), Some(ExifValue::Text(t)) if t == "ab"));
    assert!(matches!(b.get_value("Model"), Some(ExifValue::Text(t)) if t == "x\u{FFFD}y"));
}

#[test]
fn later_tag_of_same_name_wins() {
    let mut s = Seg::new(false);
    s.u16(2);
    s.entry16(0x0100, 3, 1, 1);
    s.entry16(0x0100, 3, 1, 2);
    s.u32(0);
    let (b, r) = parse(&s.bytes);
    assert_eq!(r, Ok(()));
    assert!(matches!(b.get_value("ImageWidth"), Some(ExifValue::UShort(2))));
    assert!(b.get_value("Make").is_none());
}

#[test]
fn keyed_view_keeps_first_position_and_last_value() {
    let mut s = Seg::new(false);
    s.u16(3);
    s.entry16(0x0100, 3, 1, 1);
    s.entry16(0x0101, 3, 1, 2);
    s.entry16(0x0100, 3, 1, 3);
    s.u32(0);
    let (b, r) = parse(&s.bytes);
    assert_eq!(r, Ok(()));
    let keyed = b.keyed_nodes();
    assert_eq!(
        keyed,
        vec![("ImageWidth".to_string(), 2), ("ImageLength".to_string(), 1)]
    );
}

#[test]
fn keyed_view_names_gps_node() {
    let bytes = gps_segment(&[(40, 1), (26, 1), (46, 1)], 5);
    let (b, r) = parse(&bytes);
    assert_eq!(r, Ok(()));
    let names: Vec<String> = b.keyed_nodes().into_iter().map(|p| p.0).collect();
    assert_eq!(names, vec!["Make", "GPSInfo", "Model", "DateTimeOriginal"]);
}

#[test]
fn key_order_on_plain_names() {
    let keys: Vec<String> = ["a", "b", "a", "c", "b"].iter().map(|s| s.to_string()).collect();
    assert_eq!(
        exif::key_order(&keys),
        vec![("a".to_string(), 2), ("b".to_string(), 4), ("c".to_string(), 3)]
    );
    assert!(exif::key_order(&Vec::new()).is_empty());
}
