//! The tables of known tags: the main EXIF table and the GPS table.
use vstd::prelude::*;

verus! {

/// Number of entries in the main tag table, the `UndefinedTag` sentinel included.
pub const EXIF_TAG_COUNT: usize = 109;

/// Number of entries in the GPS tag table.
pub const GPS_TAG_COUNT: usize = 32;

/// Id of the sentinel entry that unknown tags resolve to.
pub const UNDEFINED_TAG_ID: u16 = 0xFFFF;

/// How the directory walker treats an entry of a tag.
#[derive(Clone, Copy, Debug, PartialEq, Eq, Structural)]
pub enum TagCategory {
    /// Decoded and recorded under the tag's name.
    Ordinary,
    /// Points at a nested directory whose entries extend the current one.
    SubIfdPointer,
    /// Points at the GPS directory.
    GpsPointer,
    /// Offset of the embedded thumbnail.
    ThumbnailOffset,
    /// Length of the embedded thumbnail.
    ThumbnailLength,
}

/// Value kind that the GPS table declares for a tag.
#[derive(Clone, Copy, Debug, PartialEq, Eq, Structural)]
pub enum Rtype {
    /// Rational components.
    RTyp,
    /// ASCII text.
    ATyp,
    /// Bytes.
    BTyp,
    /// Short integers.
    STyp,
    /// Undefined bytes, read as text.
    UTyp,
}

/// An entry of the main tag table.
#[derive(Debug)]
pub struct ExifTag {
    pub id: u16,
    pub name: String,
    pub category: TagCategory,
}

/// What an entry of the main tag table holds.
pub struct TagInfo {
    pub id: u16,
    pub name: Seq<char>,
    pub category: TagCategory,
}

impl View for ExifTag {
    type V = TagInfo;

    open spec fn view(&self) -> TagInfo {
        TagInfo { id: self.id, name: self.name@, category: self.category }
    }
}

/// An entry of the GPS tag table; `len` is the declared number of
/// components, -1 for a variable number.
#[derive(Debug)]
pub struct GpsTag {
    pub id: u16,
    pub name: String,
    pub rtyp: Rtype,
    pub len: i8,
}

/// What an entry of the GPS tag table holds.
pub struct GpsTagInfo {
    pub id: u16,
    pub name: Seq<char>,
    pub rtyp: Rtype,
    pub len: int,
}

impl View for GpsTag {
    type V = GpsTagInfo;

    open spec fn view(&self) -> GpsTagInfo {
        GpsTagInfo { id: self.id, name: self.name@, rtyp: self.rtyp, len: self.len as int }
    }
}

/// The entry at index `i` of the main tag table.
pub open spec fn exif_tag_at(i: int) -> TagInfo {
    if i < 16 {
        exif_tags_from_0(i)
    } else if i < 32 {
        exif_tags_from_16(i)
    } else if i < 48 {
        exif_tags_from_32(i)
    } else if i < 64 {
        exif_tags_from_48(i)
    } else if i < 80 {
        exif_tags_from_64(i)
    } else if i < 96 {
        exif_tags_from_80(i)
    } else {
        exif_tags_from_96(i)
    }
}

/// Entries 0 to 15 of the main tag table.
pub open spec fn exif_tags_from_0(i: int) -> TagInfo {
    if i == 0 {
        TagInfo { id: 0x0001, name: "InteropIndex"@, category: TagCategory::Ordinary }
    } else if i == 1 {
        TagInfo { id: 0x0002, name: "InteropVersion"@, category: TagCategory::Ordinary }
    } else if i == 2 {
        TagInfo { id: 0x0100, name: "ImageWidth"@, category: TagCategory::Ordinary }
    } else if i == 3 {
        TagInfo { id: 0x0101, name: "ImageLength"@, category: TagCategory::Ordinary }
    } else if i == 4 {
        TagInfo { id: 0x0102, name: "BitsPerSample"@, category: TagCategory::Ordinary }
    } else if i == 5 {
        TagInfo { id: 0x0103, name: "Compression"@, category: TagCategory::Ordinary }
    } else if i == 6 {
        TagInfo { id: 0x0106, name: "PhotometricInterpretation"@, category: TagCategory::Ordinary }
    } else if i == 7 {
        TagInfo { id: 0x010A, name: "FillOrder"@, category: TagCategory::Ordinary }
    } else if i == 8 {
        TagInfo { id: 0x010D, name: "DocumentName"@, category: TagCategory::Ordinary }
    } else if i == 9 {
        TagInfo { id: 0x010E, name: "ImageDescription"@, category: TagCategory::Ordinary }
    } else if i == 10 {
        TagInfo { id: 0x010F, name: "Make"@, category: TagCategory::Ordinary }
    } else if i == 11 {
        TagInfo { id: 0x0110, name: "Model"@, category: TagCategory::Ordinary }
    } else if i == 12 {
        TagInfo { id: 0x0111, name: "StripOffsets"@, category: TagCategory::Ordinary }
    } else if i == 13 {
        TagInfo { id: 0x0112, name: "Orientation"@, category: TagCategory::Ordinary }
    } else if i == 14 {
        TagInfo { id: 0x0115, name: "SamplesPerPixel"@, category: TagCategory::Ordinary }
    } else {
        TagInfo { id: 0x0116, name: "RowsPerStrip"@, category: TagCategory::Ordinary }
    }
}

/// Entries 16 to 31 of the main tag table.
pub open spec fn exif_tags_from_16(i: int) -> TagInfo {
    if i == 16 {
        TagInfo { id: 0x0117, name: "StripByteCounts"@, category: TagCategory::Ordinary }
    } else if i == 17 {
        TagInfo { id: 0x011A, name: "XResolution"@, category: TagCategory::Ordinary }
    } else if i == 18 {
        TagInfo { id: 0x011B, name: "YResolution"@, category: TagCategory::Ordinary }
    } else if i == 19 {
        TagInfo { id: 0x011C, name: "PlanarConfiguration"@, category: TagCategory::Ordinary }
    } else if i == 20 {
        TagInfo { id: 0x0128, name: "ResolutionUnit"@, category: TagCategory::Ordinary }
    } else if i == 21 {
        TagInfo { id: 0x012D, name: "TransferFunction"@, category: TagCategory::Ordinary }
    } else if i == 22 {
        TagInfo { id: 0x0131, name: "Software"@, category: TagCategory::Ordinary }
    } else if i == 23 {
        TagInfo { id: 0x0132, name: "DateTime"@, category: TagCategory::Ordinary }
    } else if i == 24 {
        TagInfo { id: 0x013B, name: "Artist"@, category: TagCategory::Ordinary }
    } else if i == 25 {
        TagInfo { id: 0x013E, name: "WhitePoint"@, category: TagCategory::Ordinary }
    } else if i == 26 {
        TagInfo { id: 0x013F, name: "PrimaryChromaticities"@, category: TagCategory::Ordinary }
    } else if i == 27 {
        TagInfo { id: 0x0156, name: "TransferRange"@, category: TagCategory::Ordinary }
    } else if i == 28 {
        TagInfo { id: 0x0200, name: "JPEGProc"@, category: TagCategory::Ordinary }
    } else if i == 29 {
        TagInfo { id: 0x0201, name: "ThumbnailOffset"@, category: TagCategory::ThumbnailOffset }
    } else if i == 30 {
        TagInfo { id: 0x0202, name: "ThumbnailLength"@, category: TagCategory::ThumbnailLength }
    } else {
        TagInfo { id: 0x0211, name: "YCbCrCoefficients"@, category: TagCategory::Ordinary }
    }
}

/// Entries 32 to 47 of the main tag table.
pub open spec fn exif_tags_from_32(i: int) -> TagInfo {
    if i == 32 {
        TagInfo { id: 0x0212, name: "YCbCrSubSampling"@, category: TagCategory::Ordinary }
    } else if i == 33 {
        TagInfo { id: 0x0213, name: "YCbCrPositioning"@, category: TagCategory::Ordinary }
    } else if i == 34 {
        TagInfo { id: 0x0214, name: "ReferenceBlackWhite"@, category: TagCategory::Ordinary }
    } else if i == 35 {
        TagInfo { id: 0x1001, name: "RelatedImageWidth"@, category: TagCategory::Ordinary }
    } else if i == 36 {
        TagInfo { id: 0x1002, name: "RelatedImageLength"@, category: TagCategory::Ordinary }
    } else if i == 37 {
        TagInfo { id: 0x828D, name: "CFARepeatPatternDim"@, category: TagCategory::Ordinary }
    } else if i == 38 {
        TagInfo { id: 0x828E, name: "CFAPattern"@, category: TagCategory::Ordinary }
    } else if i == 39 {
        TagInfo { id: 0x828F, name: "BatteryLevel"@, category: TagCategory::Ordinary }
    } else if i == 40 {
        TagInfo { id: 0x8298, name: "Copyright"@, category: TagCategory::Ordinary }
    } else if i == 41 {
        TagInfo { id: 0x829A, name: "ExposureTime"@, category: TagCategory::Ordinary }
    } else if i == 42 {
        TagInfo { id: 0x829D, name: "FNumber"@, category: TagCategory::Ordinary }
    } else if i == 43 {
        TagInfo { id: 0x83BB, name: "IPTC/NAA"@, category: TagCategory::Ordinary }
    } else if i == 44 {
        TagInfo { id: 0x8769, name: "ExifOffset"@, category: TagCategory::SubIfdPointer }
    } else if i == 45 {
        TagInfo { id: 0x8773, name: "InterColorProfile"@, category: TagCategory::Ordinary }
    } else if i == 46 {
        TagInfo { id: 0x8822, name: "ExposureProgram"@, category: TagCategory::Ordinary }
    } else {
        TagInfo { id: 0x8824, name: "SpectralSensitivity"@, category: TagCategory::Ordinary }
    }
}

/// Entries 48 to 63 of the main tag table.
pub open spec fn exif_tags_from_48(i: int) -> TagInfo {
    if i == 48 {
        TagInfo { id: 0x8825, name: "GPSInfo"@, category: TagCategory::GpsPointer }
    } else if i == 49 {
        TagInfo { id: 0x8827, name: "ISOSpeedRatings"@, category: TagCategory::Ordinary }
    } else if i == 50 {
        TagInfo { id: 0x8828, name: "OECF"@, category: TagCategory::Ordinary }
    } else if i == 51 {
        TagInfo { id: 0x9000, name: "ExifVersion"@, category: TagCategory::Ordinary }
    } else if i == 52 {
        TagInfo { id: 0x9003, name: "DateTimeOriginal"@, category: TagCategory::Ordinary }
    } else if i == 53 {
        TagInfo { id: 0x9004, name: "DateTimeDigitized"@, category: TagCategory::Ordinary }
    } else if i == 54 {
        TagInfo { id: 0x9101, name: "ComponentsConfiguration"@, category: TagCategory::Ordinary }
    } else if i == 55 {
        TagInfo { id: 0x9102, name: "CompressedBitsPerPixel"@, category: TagCategory::Ordinary }
    } else if i == 56 {
        TagInfo { id: 0x9201, name: "ShutterSpeedValue"@, category: TagCategory::Ordinary }
    } else if i == 57 {
        TagInfo { id: 0x9202, name: "ApertureValue"@, category: TagCategory::Ordinary }
    } else if i == 58 {
        TagInfo { id: 0x9203, name: "BrightnessValue"@, category: TagCategory::Ordinary }
    } else if i == 59 {
        TagInfo { id: 0x9204, name: "ExposureBiasValue"@, category: TagCategory::Ordinary }
    } else if i == 60 {
        TagInfo { id: 0x9205, name: "MaxApertureValue"@, category: TagCategory::Ordinary }
    } else if i == 61 {
        TagInfo { id: 0x9206, name: "SubjectDistance"@, category: TagCategory::Ordinary }
    } else if i == 62 {
        TagInfo { id: 0x9207, name: "MeteringMode"@, category: TagCategory::Ordinary }
    } else {
        TagInfo { id: 0x9208, name: "LightSource"@, category: TagCategory::Ordinary }
    }
}

/// Entries 64 to 79 of the main tag table.
pub open spec fn exif_tags_from_64(i: int) -> TagInfo {
    if i == 64 {
        TagInfo { id: 0x9209, name: "Flash"@, category: TagCategory::Ordinary }
    } else if i == 65 {
        TagInfo { id: 0x920A, name: "FocalLength"@, category: TagCategory::Ordinary }
    } else if i == 66 {
        TagInfo { id: 0x920B, name: "FlashEnergy"@, category: TagCategory::Ordinary }
    } else if i == 67 {
        TagInfo { id: 0x920C, name: "SpatialFrequencyResponse"@, category: TagCategory::Ordinary }
    } else if i == 68 {
        TagInfo { id: 0x920E, name: "FocalPlaneXResolution"@, category: TagCategory::Ordinary }
    } else if i == 69 {
        TagInfo { id: 0x920F, name: "FocalPlaneYResolution"@, category: TagCategory::Ordinary }
    } else if i == 70 {
        TagInfo { id: 0x9210, name: "FocalPlaneResolutionUnit"@, category: TagCategory::Ordinary }
    } else if i == 71 {
        TagInfo { id: 0x9214, name: "SubjectLocation"@, category: TagCategory::Ordinary }
    } else if i == 72 {
        TagInfo { id: 0x9215, name: "ExposureIndex"@, category: TagCategory::Ordinary }
    } else if i == 73 {
        TagInfo { id: 0x9217, name: "SensingMethod"@, category: TagCategory::Ordinary }
    } else if i == 74 {
        TagInfo { id: 0x927C, name: "MakerNote"@, category: TagCategory::Ordinary }
    } else if i == 75 {
        TagInfo { id: 0x9286, name: "UserComment"@, category: TagCategory::Ordinary }
    } else if i == 76 {
        TagInfo { id: 0x9290, name: "SubSecTime"@, category: TagCategory::Ordinary }
    } else if i == 77 {
        TagInfo { id: 0x9291, name: "SubSecTimeOriginal"@, category: TagCategory::Ordinary }
    } else if i == 78 {
        TagInfo { id: 0x9292, name: "SubSecTimeDigitized"@, category: TagCategory::Ordinary }
    } else {
        TagInfo { id: 0xA000, name: "FlashPixVersion"@, category: TagCategory::Ordinary }
    }
}

/// Entries 80 to 95 of the main tag table.
pub open spec fn exif_tags_from_80(i: int) -> TagInfo {
    if i == 80 {
        TagInfo { id: 0xA001, name: "ColorSpace"@, category: TagCategory::Ordinary }
    } else if i == 81 {
        TagInfo { id: 0xA002, name: "ExifImageWidth"@, category: TagCategory::Ordinary }
    } else if i == 82 {
        TagInfo { id: 0xA003, name: "ExifImageLength"@, category: TagCategory::Ordinary }
    } else if i == 83 {
        TagInfo { id: 0xA004, name: "RelatedAudioFile"@, category: TagCategory::Ordinary }
    } else if i == 84 {
        TagInfo { id: 0xA005, name: "InteroperabilityOffset"@, category: TagCategory::SubIfdPointer }
    } else if i == 85 {
        TagInfo { id: 0xA20B, name: "FlashEnergy"@, category: TagCategory::Ordinary }
    } else if i == 86 {
        TagInfo { id: 0xA20C, name: "SpatialFrequencyResponse"@, category: TagCategory::Ordinary }
    } else if i == 87 {
        TagInfo { id: 0xA20E, name: "FocalPlaneXResolution"@, category: TagCategory::Ordinary }
    } else if i == 88 {
        TagInfo { id: 0xA20F, name: "FocalPlaneYResolution"@, category: TagCategory::Ordinary }
    } else if i == 89 {
        TagInfo { id: 0xA210, name: "FocalPlaneResolutionUnit"@, category: TagCategory::Ordinary }
    } else if i == 90 {
        TagInfo { id: 0xA214, name: "SubjectLocation"@, category: TagCategory::Ordinary }
    } else if i == 91 {
        TagInfo { id: 0xA215, name: "ExposureIndex"@, category: TagCategory::Ordinary }
    } else if i == 92 {
        TagInfo { id: 0xA217, name: "SensingMethod"@, category: TagCategory::Ordinary }
    } else if i == 93 {
        TagInfo { id: 0xA300, name: "FileSource"@, category: TagCategory::Ordinary }
    } else if i == 94 {
        TagInfo { id: 0xA301, name: "SceneType"@, category: TagCategory::Ordinary }
    } else {
        TagInfo { id: 0xA302, name: "CFA Pattern"@, category: TagCategory::Ordinary }
    }
}

/// Entries 96 to 108 of the main tag table.
pub open spec fn exif_tags_from_96(i: int) -> TagInfo {
    if i == 96 {
        TagInfo { id: 0xA401, name: "CustomRendered"@, category: TagCategory::Ordinary }
    } else if i == 97 {
        TagInfo { id: 0xA402, name: "ExposureMode"@, category: TagCategory::Ordinary }
    } else if i == 98 {
        TagInfo { id: 0xA403, name: "WhiteBalance"@, category: TagCategory::Ordinary }
    } else if i == 99 {
        TagInfo { id: 0xA404, name: "DigitalZoomRatio"@, category: TagCategory::Ordinary }
    } else if i == 100 {
        TagInfo { id: 0xA405, name: "FocalLengthIn35mmFilm"@, category: TagCategory::Ordinary }
    } else if i == 101 {
        TagInfo { id: 0xA406, name: "SceneCaptureType"@, category: TagCategory::Ordinary }
    } else if i == 102 {
        TagInfo { id: 0xA407, name: "GainControl"@, category: TagCategory::Ordinary }
    } else if i == 103 {
        TagInfo { id: 0xA408, name: "Contrast"@, category: TagCategory::Ordinary }
    } else if i == 104 {
        TagInfo { id: 0xA409, name: "Saturation"@, category: TagCategory::Ordinary }
    } else if i == 105 {
        TagInfo { id: 0xA40A, name: "Sharpness"@, category: TagCategory::Ordinary }
    } else if i == 106 {
        TagInfo { id: 0xA40C, name: "SubjectDistanceRange"@, category: TagCategory::Ordinary }
    } else if i == 107 {
        TagInfo { id: 0xA420, name: "UniqueImageID"@, category: TagCategory::Ordinary }
    } else {
        TagInfo { id: 0xFFFF, name: "UndefinedTag"@, category: TagCategory::Ordinary }
    }
}

/// The entry at index `i` of the GPS tag table.
pub open spec fn gps_tag_at(i: int) -> GpsTagInfo {
    if i == 0 {
        GpsTagInfo { id: 0x00, name: "VersionID"@, rtyp: Rtype::BTyp, len: 4 }
    } else if i == 1 {
        GpsTagInfo { id: 0x01, name: "LatitudeRef"@, rtyp: Rtype::ATyp, len: 2 }
    } else if i == 2 {
        GpsTagInfo { id: 0x02, name: "Latitude"@, rtyp: Rtype::RTyp, len: 3 }
    } else if i == 3 {
        GpsTagInfo { id: 0x03, name: "LongitudeRef"@, rtyp: Rtype::ATyp, len: 2 }
    } else if i == 4 {
        GpsTagInfo { id: 0x04, name: "Longitude"@, rtyp: Rtype::RTyp, len: 3 }
    } else if i == 5 {
        GpsTagInfo { id: 0x05, name: "AltitudeRef"@, rtyp: Rtype::ATyp, len: 1 }
    } else if i == 6 {
        GpsTagInfo { id: 0x06, name: "Altitude"@, rtyp: Rtype::RTyp, len: 1 }
    } else if i == 7 {
        GpsTagInfo { id: 0x07, name: "TimeStamp"@, rtyp: Rtype::RTyp, len: 3 }
    } else if i == 8 {
        GpsTagInfo { id: 0x08, name: "Satelites"@, rtyp: Rtype::ATyp, len: -1 }
    } else if i == 9 {
        GpsTagInfo { id: 0x09, name: "Status"@, rtyp: Rtype::ATyp, len: 2 }
    } else if i == 10 {
        GpsTagInfo { id: 0x0A, name: "MeasureMode"@, rtyp: Rtype::ATyp, len: 2 }
    } else if i == 11 {
        GpsTagInfo { id: 0x0B, name: "DOP"@, rtyp: Rtype::RTyp, len: 1 }
    } else if i == 12 {
        GpsTagInfo { id: 0x0C, name: "SpeedRef"@, rtyp: Rtype::ATyp, len: 2 }
    } else if i == 13 {
        GpsTagInfo { id: 0x0D, name: "Speed"@, rtyp: Rtype::RTyp, len: 1 }
    } else if i == 14 {
        GpsTagInfo { id: 0x0E, name: "TrackRef"@, rtyp: Rtype::ATyp, len: 2 }
    } else if i == 15 {
        GpsTagInfo { id: 0x0F, name: "Track"@, rtyp: Rtype::RTyp, len: 1 }
    } else if i == 16 {
        GpsTagInfo { id: 0x10, name: "ImgDirectionRef"@, rtyp: Rtype::ATyp, len: 2 }
    } else if i == 17 {
        GpsTagInfo { id: 0x11, name: "ImgDirection"@, rtyp: Rtype::RTyp, len: 1 }
    } else if i == 18 {
        GpsTagInfo { id: 0x12, name: "MapDatum"@, rtyp: Rtype::ATyp, len: -1 }
    } else if i == 19 {
        GpsTagInfo { id: 0x13, name: "DestLatitudeRef"@, rtyp: Rtype::ATyp, len: 2 }
    } else if i == 20 {
        GpsTagInfo { id: 0x14, name: "DestLatitude"@, rtyp: Rtype::RTyp, len: 3 }
    } else if i == 21 {
        GpsTagInfo { id: 0x15, name: "DestLongitudeRef"@, rtyp: Rtype::ATyp, len: 2 }
    } else if i == 22 {
        GpsTagInfo { id: 0x16, name: "DestLongitude"@, rtyp: Rtype::RTyp, len: 3 }
    } else if i == 23 {
        GpsTagInfo { id: 0x17, name: "DestBearingRef"@, rtyp: Rtype::ATyp, len: 2 }
    } else if i == 24 {
        GpsTagInfo { id: 0x18, name: "DestBearing"@, rtyp: Rtype::RTyp, len: 1 }
    } else if i == 25 {
        GpsTagInfo { id: 0x19, name: "DestDistanceRef"@, rtyp: Rtype::ATyp, len: 2 }
    } else if i == 26 {
        GpsTagInfo { id: 0x1A, name: "DestDistance"@, rtyp: Rtype::RTyp, len: 1 }
    } else if i == 27 {
        GpsTagInfo { id: 0x1B, name: "ProcessingMethod"@, rtyp: Rtype::UTyp, len: -1 }
    } else if i == 28 {
        GpsTagInfo { id: 0x1C, name: "AreaInformation"@, rtyp: Rtype::UTyp, len: -1 }
    } else if i == 29 {
        GpsTagInfo { id: 0x1D, name: "DateStamp"@, rtyp: Rtype::ATyp, len: 11 }
    } else if i == 30 {
        GpsTagInfo { id: 0x1E, name: "Differential"@, rtyp: Rtype::STyp, len: 2 }
    } else {
        GpsTagInfo { id: 0x1F, name: "HPositioningError"@, rtyp: Rtype::RTyp, len: 1 }
    }
}

fn exif_tag(id: u16, name: &str, category: TagCategory) -> (r: ExifTag)
    ensures
        r@ == (TagInfo { id, name: name@, category }),
{
    ExifTag { id, name: String::from_str(name), category }
}

fn gps_tag(id: u16, name: &str, rtyp: Rtype, len: i8) -> (r: GpsTag)
    ensures
        r@ == (GpsTagInfo { id, name: name@, rtyp, len: len as int }),
{
    GpsTag { id, name: String::from_str(name), rtyp, len }
}

/// Builds the entry at index `i` of the main tag table.
fn exif_tag_entry(i: usize) -> (r: ExifTag)
    requires
        i < EXIF_TAG_COUNT,
    ensures
        r@ == exif_tag_at(i as int),
{
    if i < 16 {
        exif_tag_entry_from_0(i)
    } else if i < 32 {
        exif_tag_entry_from_16(i)
    } else if i < 48 {
        exif_tag_entry_from_32(i)
    } else if i < 64 {
        exif_tag_entry_from_48(i)
    } else if i < 80 {
        exif_tag_entry_from_64(i)
    } else if i < 96 {
        exif_tag_entry_from_80(i)
    } else {
        exif_tag_entry_from_96(i)
    }
}

fn exif_tag_entry_from_0(i: usize) -> (r: ExifTag)
    requires
        0 <= i < 16,
    ensures
        r@ == exif_tags_from_0(i as int),
{
    if i == 0 {
        exif_tag(0x0001, "InteropIndex", TagCategory::Ordinary)
    } else if i == 1 {
        exif_tag(0x0002, "InteropVersion", TagCategory::Ordinary)
    } else if i == 2 {
        exif_tag(0x0100, "ImageWidth", TagCategory::Ordinary)
    } else if i == 3 {
        exif_tag(0x0101, "ImageLength", TagCategory::Ordinary)
    } else if i == 4 {
        exif_tag(0x0102, "BitsPerSample", TagCategory::Ordinary)
    } else if i == 5 {
        exif_tag(0x0103, "Compression", TagCategory::Ordinary)
    } else if i == 6 {
        exif_tag(0x0106, "PhotometricInterpretation", TagCategory::Ordinary)
    } else if i == 7 {
        exif_tag(0x010A, "FillOrder", TagCategory::Ordinary)
    } else if i == 8 {
        exif_tag(0x010D, "DocumentName", TagCategory::Ordinary)
    } else if i == 9 {
        exif_tag(0x010E, "ImageDescription", TagCategory::Ordinary)
    } else if i == 10 {
        exif_tag(0x010F, "Make", TagCategory::Ordinary)
    } else if i == 11 {
        exif_tag(0x0110, "Model", TagCategory::Ordinary)
    } else if i == 12 {
        exif_tag(0x0111, "StripOffsets", TagCategory::Ordinary)
    } else if i == 13 {
        exif_tag(0x0112, "Orientation", TagCategory::Ordinary)
    } else if i == 14 {
        exif_tag(0x0115, "SamplesPerPixel", TagCategory::Ordinary)
    } else {
        exif_tag(0x0116, "RowsPerStrip", TagCategory::Ordinary)
    }
}

fn exif_tag_entry_from_16(i: usize) -> (r: ExifTag)
    requires
        16 <= i < 32,
    ensures
        r@ == exif_tags_from_16(i as int),
{
    if i == 16 {
        exif_tag(0x0117, "StripByteCounts", TagCategory::Ordinary)
    } else if i == 17 {
        exif_tag(0x011A, "XResolution", TagCategory::Ordinary)
    } else if i == 18 {
        exif_tag(0x011B, "YResolution", TagCategory::Ordinary)
    } else if i == 19 {
        exif_tag(0x011C, "PlanarConfiguration", TagCategory::Ordinary)
    } else if i == 20 {
        exif_tag(0x0128, "ResolutionUnit", TagCategory::Ordinary)
    } else if i == 21 {
        exif_tag(0x012D, "TransferFunction", TagCategory::Ordinary)
    } else if i == 22 {
        exif_tag(0x0131, "Software", TagCategory::Ordinary)
    } else if i == 23 {
        exif_tag(0x0132, "DateTime", TagCategory::Ordinary)
    } else if i == 24 {
        exif_tag(0x013B, "Artist", TagCategory::Ordinary)
    } else if i == 25 {
        exif_tag(0x013E, "WhitePoint", TagCategory::Ordinary)
    } else if i == 26 {
        exif_tag(0x013F, "PrimaryChromaticities", TagCategory::Ordinary)
    } else if i == 27 {
        exif_tag(0x0156, "TransferRange", TagCategory::Ordinary)
    } else if i == 28 {
        exif_tag(0x0200, "JPEGProc", TagCategory::Ordinary)
    } else if i == 29 {
        exif_tag(0x0201, "ThumbnailOffset", TagCategory::ThumbnailOffset)
    } else if i == 30 {
        exif_tag(0x0202, "ThumbnailLength", TagCategory::ThumbnailLength)
    } else {
        exif_tag(0x0211, "YCbCrCoefficients", TagCategory::Ordinary)
    }
}

fn exif_tag_entry_from_32(i: usize) -> (r: ExifTag)
    requires
        32 <= i < 48,
    ensures
        r@ == exif_tags_from_32(i as int),
{
    if i == 32 {
        exif_tag(0x0212, "YCbCrSubSampling", TagCategory::Ordinary)
    } else if i == 33 {
        exif_tag(0x0213, "YCbCrPositioning", TagCategory::Ordinary)
    } else if i == 34 {
        exif_tag(0x0214, "ReferenceBlackWhite", TagCategory::Ordinary)
    } else if i == 35 {
        exif_tag(0x1001, "RelatedImageWidth", TagCategory::Ordinary)
    } else if i == 36 {
        exif_tag(0x1002, "RelatedImageLength", TagCategory::Ordinary)
    } else if i == 37 {
        exif_tag(0x828D, "CFARepeatPatternDim", TagCategory::Ordinary)
    } else if i == 38 {
        exif_tag(0x828E, "CFAPattern", TagCategory::Ordinary)
    } else if i == 39 {
        exif_tag(0x828F, "BatteryLevel", TagCategory::Ordinary)
    } else if i == 40 {
        exif_tag(0x8298, "Copyright", TagCategory::Ordinary)
    } else if i == 41 {
        exif_tag(0x829A, "ExposureTime", TagCategory::Ordinary)
    } else if i == 42 {
        exif_tag(0x829D, "FNumber", TagCategory::Ordinary)
    } else if i == 43 {
        exif_tag(0x83BB, "IPTC/NAA", TagCategory::Ordinary)
    } else if i == 44 {
        exif_tag(0x8769, "ExifOffset", TagCategory::SubIfdPointer)
    } else if i == 45 {
        exif_tag(0x8773, "InterColorProfile", TagCategory::Ordinary)
    } else if i == 46 {
        exif_tag(0x8822, "ExposureProgram", TagCategory::Ordinary)
    } else {
        exif_tag(0x8824, "SpectralSensitivity", TagCategory::Ordinary)
    }
}

fn exif_tag_entry_from_48(i: usize) -> (r: ExifTag)
    requires
        48 <= i < 64,
    ensures
        r@ == exif_tags_from_48(i as int),
{
    if i == 48 {
        exif_tag(0x8825, "GPSInfo", TagCategory::GpsPointer)
    } else if i == 49 {
        exif_tag(0x8827, "ISOSpeedRatings", TagCategory::Ordinary)
    } else if i == 50 {
        exif_tag(0x8828, "OECF", TagCategory::Ordinary)
    } else if i == 51 {
        exif_tag(0x9000, "ExifVersion", TagCategory::Ordinary)
    } else if i == 52 {
        exif_tag(0x9003, "DateTimeOriginal", TagCategory::Ordinary)
    } else if i == 53 {
        exif_tag(0x9004, "DateTimeDigitized", TagCategory::Ordinary)
    } else if i == 54 {
        exif_tag(0x9101, "ComponentsConfiguration", TagCategory::Ordinary)
    } else if i == 55 {
        exif_tag(0x9102, "CompressedBitsPerPixel", TagCategory::Ordinary)
    } else if i == 56 {
        exif_tag(0x9201, "ShutterSpeedValue", TagCategory::Ordinary)
    } else if i == 57 {
        exif_tag(0x9202, "ApertureValue", TagCategory::Ordinary)
    } else if i == 58 {
        exif_tag(0x9203, "BrightnessValue", TagCategory::Ordinary)
    } else if i == 59 {
        exif_tag(0x9204, "ExposureBiasValue", TagCategory::Ordinary)
    } else if i == 60 {
        exif_tag(0x9205, "MaxApertureValue", TagCategory::Ordinary)
    } else if i == 61 {
        exif_tag(0x9206, "SubjectDistance", TagCategory::Ordinary)
    } else if i == 62 {
        exif_tag(0x9207, "MeteringMode", TagCategory::Ordinary)
    } else {
        exif_tag(0x9208, "LightSource", TagCategory::Ordinary)
    }
}

fn exif_tag_entry_from_64(i: usize) -> (r: ExifTag)
    requires
        64 <= i < 80,
    ensures
        r@ == exif_tags_from_64(i as int),
{
    if i == 64 {
        exif_tag(0x9209, "Flash", TagCategory::Ordinary)
    } else if i == 65 {
        exif_tag(0x920A, "FocalLength", TagCategory::Ordinary)
    } else if i == 66 {
        exif_tag(0x920B, "FlashEnergy", TagCategory::Ordinary)
    } else if i == 67 {
        exif_tag(0x920C, "SpatialFrequencyResponse", TagCategory::Ordinary)
    } else if i == 68 {
        exif_tag(0x920E, "FocalPlaneXResolution", TagCategory::Ordinary)
    } else if i == 69 {
        exif_tag(0x920F, "FocalPlaneYResolution", TagCategory::Ordinary)
    } else if i == 70 {
        exif_tag(0x9210, "FocalPlaneResolutionUnit", TagCategory::Ordinary)
    } else if i == 71 {
        exif_tag(0x9214, "SubjectLocation", TagCategory::Ordinary)
    } else if i == 72 {
        exif_tag(0x9215, "ExposureIndex", TagCategory::Ordinary)
    } else if i == 73 {
        exif_tag(0x9217, "SensingMethod", TagCategory::Ordinary)
    } else if i == 74 {
        exif_tag(0x927C, "MakerNote", TagCategory::Ordinary)
    } else if i == 75 {
        exif_tag(0x9286, "UserComment", TagCategory::Ordinary)
    } else if i == 76 {
        exif_tag(0x9290, "SubSecTime", TagCategory::Ordinary)
    } else if i == 77 {
        exif_tag(0x9291, "SubSecTimeOriginal", TagCategory::Ordinary)
    } else if i == 78 {
        exif_tag(0x9292, "SubSecTimeDigitized", TagCategory::Ordinary)
    } else {
        exif_tag(0xA000, "FlashPixVersion", TagCategory::Ordinary)
    }
}

fn exif_tag_entry_from_80(i: usize) -> (r: ExifTag)
    requires
        80 <= i < 96,
    ensures
        r@ == exif_tags_from_80(i as int),
{
    if i == 80 {
        exif_tag(0xA001, "ColorSpace", TagCategory::Ordinary)
    } else if i == 81 {
        exif_tag(0xA002, "ExifImageWidth", TagCategory::Ordinary)
    } else if i == 82 {
        exif_tag(0xA003, "ExifImageLength", TagCategory::Ordinary)
    } else if i == 83 {
        exif_tag(0xA004, "RelatedAudioFile", TagCategory::Ordinary)
    } else if i == 84 {
        exif_tag(0xA005, "InteroperabilityOffset", TagCategory::SubIfdPointer)
    } else if i == 85 {
        exif_tag(0xA20B, "FlashEnergy", TagCategory::Ordinary)
    } else if i == 86 {
        exif_tag(0xA20C, "SpatialFrequencyResponse", TagCategory::Ordinary)
    } else if i == 87 {
        exif_tag(0xA20E, "FocalPlaneXResolution", TagCategory::Ordinary)
    } else if i == 88 {
        exif_tag(0xA20F, "FocalPlaneYResolution", TagCategory::Ordinary)
    } else if i == 89 {
        exif_tag(0xA210, "FocalPlaneResolutionUnit", TagCategory::Ordinary)
    } else if i == 90 {
        exif_tag(0xA214, "SubjectLocation", TagCategory::Ordinary)
    } else if i == 91 {
        exif_tag(0xA215, "ExposureIndex", TagCategory::Ordinary)
    } else if i == 92 {
        exif_tag(0xA217, "SensingMethod", TagCategory::Ordinary)
    } else if i == 93 {
        exif_tag(0xA300, "FileSource", TagCategory::Ordinary)
    } else if i == 94 {
        exif_tag(0xA301, "SceneType", TagCategory::Ordinary)
    } else {
        exif_tag(0xA302, "CFA Pattern", TagCategory::Ordinary)
    }
}

fn exif_tag_entry_from_96(i: usize) -> (r: ExifTag)
    requires
        96 <= i < 109,
    ensures
        r@ == exif_tags_from_96(i as int),
{
    if i == 96 {
        exif_tag(0xA401, "CustomRendered", TagCategory::Ordinary)
    } else if i == 97 {
        exif_tag(0xA402, "ExposureMode", TagCategory::Ordinary)
    } else if i == 98 {
        exif_tag(0xA403, "WhiteBalance", TagCategory::Ordinary)
    } else if i == 99 {
        exif_tag(0xA404, "DigitalZoomRatio", TagCategory::Ordinary)
    } else if i == 100 {
        exif_tag(0xA405, "FocalLengthIn35mmFilm", TagCategory::Ordinary)
    } else if i == 101 {
        exif_tag(0xA406, "SceneCaptureType", TagCategory::Ordinary)
    } else if i == 102 {
        exif_tag(0xA407, "GainControl", TagCategory::Ordinary)
    } else if i == 103 {
        exif_tag(0xA408, "Contrast", TagCategory::Ordinary)
    } else if i == 104 {
        exif_tag(0xA409, "Saturation", TagCategory::Ordinary)
    } else if i == 105 {
        exif_tag(0xA40A, "Sharpness", TagCategory::Ordinary)
    } else if i == 106 {
        exif_tag(0xA40C, "SubjectDistanceRange", TagCategory::Ordinary)
    } else if i == 107 {
        exif_tag(0xA420, "UniqueImageID", TagCategory::Ordinary)
    } else {
        exif_tag(0xFFFF, "UndefinedTag", TagCategory::Ordinary)
    }
}

/// Builds the entry at index `i` of the GPS tag table.
fn gps_tag_entry(i: usize) -> (r: GpsTag)
    requires
        i < GPS_TAG_COUNT,
    ensures
        r@ == gps_tag_at(i as int),
{
    if i == 0 {
        gps_tag(0x00, "VersionID", Rtype::BTyp, 4)
    } else if i == 1 {
        gps_tag(0x01, "LatitudeRef", Rtype::ATyp, 2)
    } else if i == 2 {
        gps_tag(0x02, "Latitude", Rtype::RTyp, 3)
    } else if i == 3 {
        gps_tag(0x03, "LongitudeRef", Rtype::ATyp, 2)
    } else if i == 4 {
        gps_tag(0x04, "Longitude", Rtype::RTyp, 3)
    } else if i == 5 {
        gps_tag(0x05, "AltitudeRef", Rtype::ATyp, 1)
    } else if i == 6 {
        gps_tag(0x06, "Altitude", Rtype::RTyp, 1)
    } else if i == 7 {
        gps_tag(0x07, "TimeStamp", Rtype::RTyp, 3)
    } else if i == 8 {
        gps_tag(0x08, "Satelites", Rtype::ATyp, -1)
    } else if i == 9 {
        gps_tag(0x09, "Status", Rtype::ATyp, 2)
    } else if i == 10 {
        gps_tag(0x0A, "MeasureMode", Rtype::ATyp, 2)
    } else if i == 11 {
        gps_tag(0x0B, "DOP", Rtype::RTyp, 1)
    } else if i == 12 {
        gps_tag(0x0C, "SpeedRef", Rtype::ATyp, 2)
    } else if i == 13 {
        gps_tag(0x0D, "Speed", Rtype::RTyp, 1)
    } else if i == 14 {
        gps_tag(0x0E, "TrackRef", Rtype::ATyp, 2)
    } else if i == 15 {
        gps_tag(0x0F, "Track", Rtype::RTyp, 1)
    } else if i == 16 {
        gps_tag(0x10, "ImgDirectionRef", Rtype::ATyp, 2)
    } else if i == 17 {
        gps_tag(0x11, "ImgDirection", Rtype::RTyp, 1)
    } else if i == 18 {
        gps_tag(0x12, "MapDatum", Rtype::ATyp, -1)
    } else if i == 19 {
        gps_tag(0x13, "DestLatitudeRef", Rtype::ATyp, 2)
    } else if i == 20 {
        gps_tag(0x14, "DestLatitude", Rtype::RTyp, 3)
    } else if i == 21 {
        gps_tag(0x15, "DestLongitudeRef", Rtype::ATyp, 2)
    } else if i == 22 {
        gps_tag(0x16, "DestLongitude", Rtype::RTyp, 3)
    } else if i == 23 {
        gps_tag(0x17, "DestBearingRef", Rtype::ATyp, 2)
    } else if i == 24 {
        gps_tag(0x18, "DestBearing", Rtype::RTyp, 1)
    } else if i == 25 {
        gps_tag(0x19, "DestDistanceRef", Rtype::ATyp, 2)
    } else if i == 26 {
        gps_tag(0x1A, "DestDistance", Rtype::RTyp, 1)
    } else if i == 27 {
        gps_tag(0x1B, "ProcessingMethod", Rtype::UTyp, -1)
    } else if i == 28 {
        gps_tag(0x1C, "AreaInformation", Rtype::UTyp, -1)
    } else if i == 29 {
        gps_tag(0x1D, "DateStamp", Rtype::ATyp, 11)
    } else if i == 30 {
        gps_tag(0x1E, "Differential", Rtype::STyp, 2)
    } else {
        gps_tag(0x1F, "HPositioningError", Rtype::RTyp, 1)
    }
}

/// The main tag table.
pub open spec fn exif_catalog() -> Seq<TagInfo> {
    Seq::new(EXIF_TAG_COUNT as nat, |i: int| exif_tag_at(i))
}

/// The GPS tag table.
pub open spec fn gps_catalog() -> Seq<GpsTagInfo> {
    Seq::new(GPS_TAG_COUNT as nat, |i: int| gps_tag_at(i))
}

/// What a list of main-table entries holds.
pub open spec fn tag_infos(v: Seq<ExifTag>) -> Seq<TagInfo> {
    v.map_values(|t: ExifTag| t@)
}

/// What a list of GPS-table entries holds.
pub open spec fn gps_infos(v: Seq<GpsTag>) -> Seq<GpsTagInfo> {
    v.map_values(|t: GpsTag| t@)
}

/// The first entry at or after index `i` whose id is `id`.
pub open spec fn find_tag_from(tags: Seq<TagInfo>, id: int, i: int) -> Option<TagInfo>
    decreases tags.len() - i,
{
    if i < 0 || i >= tags.len() {
        None
    } else if tags[i].id == id {
        Some(tags[i])
    } else {
        find_tag_from(tags, id, i + 1)
    }
}

/// The first GPS entry at or after index `i` whose id is `id`.
pub open spec fn find_gps_from(tags: Seq<GpsTagInfo>, id: int, i: int) -> Option<GpsTagInfo>
    decreases tags.len() - i,
{
    if i < 0 || i >= tags.len() {
        None
    } else if tags[i].id == id {
        Some(tags[i])
    } else {
        find_gps_from(tags, id, i + 1)
    }
}

/// The sentinel entry that ids missing from the main table resolve to.
pub open spec fn undefined_tag() -> TagInfo {
    TagInfo { id: UNDEFINED_TAG_ID, name: "UndefinedTag"@, category: TagCategory::Ordinary }
}

/// The main-table entry of a tag id; ids that the table lacks get the sentinel.
pub open spec fn resolve_tag(id: int) -> TagInfo {
    match find_tag_from(exif_catalog(), id, 0) {
        Some(t) => t,
        None => undefined_tag(),
    }
}

/// `v` holds exactly the main tag table.
pub open spec fn is_exif_table(v: Seq<ExifTag>) -> bool {
    &&& v.len() == EXIF_TAG_COUNT
    &&& forall|i: int| 0 <= i < v.len() ==> #[trigger] v[i]@ == exif_tag_at(i)
}

/// `v` holds exactly the GPS tag table.
pub open spec fn is_gps_table(v: Seq<GpsTag>) -> bool {
    &&& v.len() == GPS_TAG_COUNT
    &&& forall|i: int| 0 <= i < v.len() ==> #[trigger] v[i]@ == gps_tag_at(i)
}

pub proof fn lemma_exif_table_infos(v: Seq<ExifTag>)
    requires
        is_exif_table(v),
    ensures
        tag_infos(v) == exif_catalog(),
{
    assert(tag_infos(v) =~= exif_catalog());
}

pub proof fn lemma_gps_table_infos(v: Seq<GpsTag>)
    requires
        is_gps_table(v),
    ensures
        gps_infos(v) == gps_catalog(),
{
    assert(gps_infos(v) =~= gps_catalog());
}

/// Builds the main tag table.
pub fn exif_tag_table() -> (r: Vec<ExifTag>)
    ensures
        is_exif_table(r@),
{
    let mut v: Vec<ExifTag> = Vec::new();
    let mut i: usize = 0;
    while i < EXIF_TAG_COUNT
        invariant
            i <= EXIF_TAG_COUNT,
            v@.len() == i,
            forall|j: int| 0 <= j < i ==> #[trigger] v@[j]@ == exif_tag_at(j),
        decreases EXIF_TAG_COUNT - i,
    {
        v.push(exif_tag_entry(i));
        i = i + 1;
    }
    v
}

/// Builds the GPS tag table.
pub fn gps_tag_table() -> (r: Vec<GpsTag>)
    ensures
        is_gps_table(r@),
{
    let mut v: Vec<GpsTag> = Vec::new();
    let mut i: usize = 0;
    while i < GPS_TAG_COUNT
        invariant
            i <= GPS_TAG_COUNT,
            v@.len() == i,
            forall|j: int| 0 <= j < i ==> #[trigger] v@[j]@ == gps_tag_at(j),
        decreases GPS_TAG_COUNT - i,
    {
        v.push(gps_tag_entry(i));
        i = i + 1;
    }
    v
}

/// Index of the first entry of `tags` whose id is `id`.
pub fn find_exif_index(tags: &Vec<ExifTag>, id: u16) -> (r: Option<usize>)
    ensures
        match r {
            Some(k) => k < tags@.len() && find_tag_from(tag_infos(tags@), id as int, 0) == Some(
                tags@[k as int]@,
            ),
            None => find_tag_from(tag_infos(tags@), id as int, 0) is None,
        },
{
    let ghost infos = tag_infos(tags@);
    let mut i: usize = 0;
    while i < tags.len()
        invariant
            i <= tags@.len(),
            infos == tag_infos(tags@),
            find_tag_from(infos, id as int, 0) == find_tag_from(infos, id as int, i as int),
        decreases tags@.len() - i,
    {
        if tags[i].id == id {
            return Some(i);
        }
        i = i + 1;
    }
    None
}

/// Index of the first entry of `tags` whose id is `id`.
pub fn find_gps_index(tags: &Vec<GpsTag>, id: u16) -> (r: Option<usize>)
    ensures
        match r {
            Some(k) => k < tags@.len() && find_gps_from(gps_infos(tags@), id as int, 0) == Some(
                tags@[k as int]@,
            ),
            None => find_gps_from(gps_infos(tags@), id as int, 0) is None,
        },
{
    let ghost infos = gps_infos(tags@);
    let mut i: usize = 0;
    while i < tags.len()
        invariant
            i <= tags@.len(),
            infos == gps_infos(tags@),
            find_gps_from(infos, id as int, 0) == find_gps_from(infos, id as int, i as int),
        decreases tags@.len() - i,
    {
        if tags[i].id == id {
            return Some(i);
        }
        i = i + 1;
    }
    None
}

/// The GPS tag table, as a value of its own.
#[derive(Debug)]
pub struct GpsBlock {
    pub gps_tags: Vec<GpsTag>,
}

impl GpsBlock {
    /// The block holds exactly the GPS tag table.
    pub open spec fn wf(&self) -> bool {
        is_gps_table(self.gps_tags@)
    }

    /// A block holding the GPS tag table.
    pub fn new() -> (r: GpsBlock)
        ensures
            r.wf(),
    {
        GpsBlock { gps_tags: gps_tag_table() }
    }

    /// Name of the first entry whose id is `id`.
    #[allow(non_snake_case)]
    pub fn GetName(&self, id: u16) -> (r: Option<&String>)
        ensures
            match find_gps_from(gps_infos(self.gps_tags@), id as int, 0) {
                Some(t) => r is Some && r->0@ == t.name,
                None => r is None,
            },
    {
        match find_gps_index(&self.gps_tags, id) {
            Some(k) => Some(&self.gps_tags[k].name),
            None => None,
        }
    }
}

impl Default for GpsBlock {
    fn default() -> (r: GpsBlock)
        ensures
            r.wf(),
    {
        GpsBlock::new()
    }
}

} // verus!
