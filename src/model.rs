//! What a parse yields, stated over the bytes of the segment.
use vstd::prelude::*;
use crate::bytes::{u16_val, u32_val};
use crate::catalog::{find_gps_from, gps_catalog, resolve_tag, undefined_tag, Rtype, TagCategory};
use crate::format::{decoded_value, fmt_of, stored_int, width, ValueView, FMT, NUM_FORMAT_CODES};

verus! {

/// Deepest directory level; level 1 is the first directory.
pub const MAX_NESTING: u32 = 4;

/// Most directories that one chain of next-directory links may add.
pub const MAX_LINKED_DIRS: u32 = 16;

/// Level of the first directory.
pub const ROOT_LEVEL: u32 = 1;

/// Offsets inside the TIFF structure count from this byte of the segment.
pub const OFFSET_BASE: usize = 6;

/// Bytes of the `Exif\0\0` marker and the TIFF header together.
pub const HEADER_LEN: usize = 14;

/// Smallest accepted offset of the first directory.
pub const MIN_FIRST_IFD: u32 = 8;

/// Largest accepted offset of the first directory.
pub const MAX_FIRST_IFD: u32 = 32000;

/// Largest segment that is parsed.
pub const MAX_SEGMENT_LEN: usize = 0x7FFF_FFFF;

/// Why a segment, or one directory of it, could not be decoded.
#[derive(Clone, Copy, Debug, PartialEq, Eq, Structural)]
pub enum ExifError {
    /// The stated length exceeds the bytes handed over.
    InvalidLength,
    /// The segment is larger than `MAX_SEGMENT_LEN`.
    SegmentTooLarge,
    /// The segment does not start with `Exif\0\0`.
    NoExifHeader,
    /// The segment ends inside the TIFF header.
    TruncatedHeader,
    /// The byte-order marker is neither `II` nor `MM`.
    InvalidByteOrder,
    /// The TIFF magic number is not 0x2A.
    InvalidTiffMagic,
    /// The first directory's offset lies outside `[8, 32000]`.
    SuspiciousFirstOffset,
    /// A directory would lie deeper than `MAX_NESTING`.
    MaxNestingExceeded,
    /// A directory's entries do not fit in the segment.
    IllegalDirectorySize,
    /// An entry's format code is 13 or more.
    IllegalFormat,
    /// An entry's value lies outside the segment.
    IllegalValuePointer,
    /// A link to another directory lies outside the segment.
    IllegalSubdirLink,
    /// A chain of next-directory links is longer than `MAX_LINKED_DIRS`.
    LinkChainTooLong,
    /// A GPS entry's format disagrees with the kind that the GPS table declares.
    GpsKindMismatch,
}

/// What one decoded entry holds.
pub struct EntryView {
    pub name: Seq<char>,
    pub format: FMT,
    pub count: int,
    pub val: ValueView,
    pub offset: int,
}

/// What one node of a directory's result holds: a tag, or the GPS directory.
pub enum NodeView {
    Tag(EntryView),
    Gps(Seq<EntryView>),
}

/// What the walk of a directory yields: its nodes in scan order (nested
/// directories flattened in), the errors of the subtrees that were skipped,
/// the end of the last byte referenced, and the thumbnail's place.
pub struct WalkView {
    pub nodes: Seq<NodeView>,
    pub warnings: Seq<ExifError>,
    pub last_ref: int,
    pub thumbnail: Option<(int, int)>,
}

/// What the walk of a GPS directory yields.
pub struct GpsView {
    pub entries: Seq<EntryView>,
    pub warnings: Seq<ExifError>,
    pub last_ref: int,
}

/// A directory's result while its entries are scanned, with the thumbnail
/// offset and length staged so far.
pub struct DirAcc {
    pub w: WalkView,
    pub off: int,
    pub size: int,
}

/// The segment being parsed: its bytes, byte order, and the base and length
/// of the region that offsets address.
pub struct Ctx {
    pub buf: Seq<u8>,
    pub motorola: bool,
    pub base: int,
    pub length: int,
}

impl Ctx {
    pub open spec fn end(self) -> int {
        self.base + self.length
    }

    /// The addressed region ends the buffer and fits the size limit.
    pub open spec fn wf(self) -> bool {
        &&& 0 <= self.base
        &&& 0 <= self.length
        &&& self.end() == self.buf.len()
        &&& self.buf.len() <= MAX_SEGMENT_LEN
    }
}

/// Address of entry `i` of the directory at `dirstart`.
pub open spec fn entry_addr(dirstart: int, i: int) -> int {
    dirstart + 2 + 12 * i
}

/// A directory ending at `dirend` fits: with room for the next-directory
/// link, or cut exactly at its end or two bytes after it.
pub open spec fn dir_fits(c: Ctx, dirend: int) -> bool {
    dirend + 4 <= c.end() || dirend + 2 == c.end() || dirend == c.end()
}

pub open spec fn entry_code(c: Ctx, e: int) -> int {
    u16_val(c.buf, e + 2, c.motorola)
}

pub open spec fn entry_count(c: Ctx, e: int) -> int {
    u32_val(c.buf, e + 4, c.motorola)
}

pub open spec fn entry_bytecount(c: Ctx, e: int) -> int {
    entry_count(c, e) * width(fmt_of(entry_code(c, e)))
}

/// Values over four bytes lie at an offset; shorter ones in the entry.
pub open spec fn value_ptr(c: Ctx, e: int) -> int {
    if entry_bytecount(c, e) > 4 {
        c.base + u32_val(c.buf, e + 8, c.motorola)
    } else {
        e + 8
    }
}

/// The entry's value lies inside the addressed region.
pub open spec fn pointer_ok(c: Ctx, e: int) -> bool {
    entry_bytecount(c, e) <= 4 || u32_val(c.buf, e + 8, c.motorola) + entry_bytecount(c, e)
        <= c.length
}

/// An entry named `name` holding `count` components of encoding `f` at `ptr`.
pub open spec fn decoded_entry(c: Ctx, name: Seq<char>, f: FMT, count: int, ptr: int) -> EntryView {
    EntryView {
        name,
        format: f,
        count,
        val: decoded_value(c.buf, c.motorola, f, ptr, count as nat),
        offset: ptr,
    }
}

/// The entry at `e` with name `name`, decoded by its format code.
pub open spec fn entry_view(c: Ctx, e: int, name: Seq<char>) -> EntryView {
    decoded_entry(c, name, fmt_of(entry_code(c, e)), entry_count(c, e), value_ptr(c, e))
}

/// The encoding that a GPS value kind stands for.
pub open spec fn kind_format(k: Rtype) -> FMT {
    match k {
        Rtype::RTyp => FMT::URATIONAL,
        Rtype::ATyp => FMT::STRING,
        Rtype::BTyp => FMT::BYTE,
        Rtype::STyp => FMT::SSHORT,
        Rtype::UTyp => FMT::UNDEFINED,
    }
}

/// The GPS entry at `e`, decoded by the kind `k` that the GPS table declares.
/// Where the format code agrees with the kind it is decoded by that code;
/// otherwise the entry's bytes are read as the kind's encoding, as many
/// components as they hold.
pub open spec fn gps_entry_view(c: Ctx, e: int, name: Seq<char>, k: Rtype) -> EntryView {
    if kind_matches(k, fmt_of(entry_code(c, e))) {
        entry_view(c, e, name)
    } else {
        decoded_entry(
            c,
            name,
            kind_format(k),
            entry_bytecount(c, e) / (width(kind_format(k)) as int),
            value_ptr(c, e),
        )
    }
}

pub open spec fn max_of(a: int, b: int) -> int {
    if a >= b { a } else { b }
}

pub open spec fn touch(acc: DirAcc, end: int) -> DirAcc {
    DirAcc { w: WalkView { last_ref: max_of(acc.w.last_ref, end), ..acc.w }, ..acc }
}

pub open spec fn warn(acc: DirAcc, e: ExifError) -> DirAcc {
    DirAcc { w: WalkView { warnings: acc.w.warnings.push(e), ..acc.w }, ..acc }
}

pub open spec fn push_node(acc: DirAcc, n: NodeView) -> DirAcc {
    DirAcc { w: WalkView { nodes: acc.w.nodes.push(n), ..acc.w }, ..acc }
}

/// Folds a nested directory's result into the current one.
pub open spec fn merge(acc: DirAcc, child: WalkView) -> DirAcc {
    DirAcc {
        w: WalkView {
            nodes: acc.w.nodes + child.nodes,
            warnings: acc.w.warnings + child.warnings,
            last_ref: max_of(acc.w.last_ref, child.last_ref),
            thumbnail: if child.thumbnail is Some {
                child.thumbnail
            } else {
                acc.w.thumbnail
            },
        },
        ..acc
    }
}

/// Records a GPS directory's result under one node.
pub open spec fn add_gps(acc: DirAcc, g: GpsView) -> DirAcc {
    DirAcc {
        w: WalkView {
            nodes: acc.w.nodes.push(NodeView::Gps(g.entries)),
            warnings: acc.w.warnings + g.warnings,
            last_ref: max_of(acc.w.last_ref, g.last_ref),
            ..acc.w
        },
        ..acc
    }
}

/// The link stored at `ptr`, as the start of the directory it names.
pub open spec fn link_at(c: Ctx, ptr: int) -> int {
    u32_val(c.buf, ptr, c.motorola)
}

/// The walk of the directory at `dirstart`, at nesting level `level`, when
/// the chain of next-directory links may add `links` more directories.
pub open spec fn walk_dir(c: Ctx, dirstart: int, level: int, links: nat) -> Result<
    WalkView,
    ExifError,
>
    decreases MAX_NESTING - level, links, 3int, 0int,
{
    if dirstart < 0 || dirstart + 2 > c.end() {
        Err(ExifError::IllegalDirectorySize)
    } else {
        let n = u16_val(c.buf, dirstart, c.motorola);
        let dirend = entry_addr(dirstart, n);
        if !dir_fits(c, dirend) {
            Err(ExifError::IllegalDirectorySize)
        } else {
            let start = DirAcc {
                w: WalkView {
                    nodes: Seq::empty(),
                    warnings: Seq::empty(),
                    last_ref: dirend,
                    thumbnail: None,
                },
                off: 0,
                size: 0,
            };
            match walk_entries(c, dirstart, n, level, links, 0, start) {
                Err(e) => Err(e),
                Ok(acc) => Ok(finish_dir(c, dirend, level, links, acc)),
            }
        }
    }
}

/// The scan of entries `i..n` of the directory at `dirstart`.
pub open spec fn walk_entries(
    c: Ctx,
    dirstart: int,
    n: int,
    level: int,
    links: nat,
    i: int,
    acc: DirAcc,
) -> Result<DirAcc, ExifError>
    decreases MAX_NESTING - level, links, 2int, n - i,
{
    if i >= n {
        Ok(acc)
    } else {
        match step_entry(c, entry_addr(dirstart, i), level, acc) {
            Err(e) => Err(e),
            Ok(a) => walk_entries(c, dirstart, n, level, links, i + 1, a),
        }
    }
}

/// The effect of the entry at `e` on its directory's result.
pub open spec fn step_entry(c: Ctx, e: int, level: int, acc: DirAcc) -> Result<DirAcc, ExifError>
    decreases MAX_NESTING - level, 0int, 1int, 0int,
{
    let tag = resolve_tag(u16_val(c.buf, e, c.motorola));
    if entry_code(c, e) >= NUM_FORMAT_CODES {
        Err(ExifError::IllegalFormat)
    } else if !pointer_ok(c, e) {
        Err(ExifError::IllegalValuePointer)
    } else {
        let f = fmt_of(entry_code(c, e));
        let ptr = value_ptr(c, e);
        let a = touch(acc, ptr + entry_bytecount(c, e));
        Ok(
            match tag.category {
                TagCategory::GpsPointer => {
                    if link_at(c, ptr) > c.length {
                        warn(a, ExifError::IllegalSubdirLink)
                    } else if level >= MAX_NESTING {
                        warn(a, ExifError::MaxNestingExceeded)
                    } else {
                        match walk_gps(c, c.base + link_at(c, ptr)) {
                            Ok(g) => add_gps(a, g),
                            Err(x) => warn(a, x),
                        }
                    }
                },
                TagCategory::SubIfdPointer => {
                    if link_at(c, ptr) > c.length {
                        warn(a, ExifError::IllegalSubdirLink)
                    } else if level >= MAX_NESTING {
                        warn(a, ExifError::MaxNestingExceeded)
                    } else {
                        match walk_dir(
                            c,
                            c.base + link_at(c, ptr),
                            level + 1,
                            MAX_LINKED_DIRS as nat,
                        ) {
                            Ok(w) => merge(a, w),
                            Err(x) => warn(a, x),
                        }
                    }
                },
                TagCategory::ThumbnailOffset => DirAcc {
                    off: stored_int(c.buf, c.motorola, f, ptr),
                    ..a
                },
                TagCategory::ThumbnailLength => DirAcc {
                    size: stored_int(c.buf, c.motorola, f, ptr),
                    ..a
                },
                TagCategory::Ordinary => push_node(a, NodeView::Tag(entry_view(c, e, tag.name))),
            },
        )
    }
}

/// After the entries: follows the link to the next directory, if any, at
/// the same level, and records the thumbnail when both of its pointers are
/// staged and valid. A link beyond the segment is ignored.
pub open spec fn finish_dir(c: Ctx, dirend: int, level: int, links: nat, acc: DirAcc) -> WalkView
    decreases MAX_NESTING - level, links, 1int, 0int,
{
    let linked = if dirend + 4 <= c.end() {
        let link = link_at(c, dirend);
        if link == 0 || link > c.length {
            acc
        } else if links == 0 {
            warn(acc, ExifError::LinkChainTooLong)
        } else {
            match walk_dir(c, c.base + link, level, (links - 1) as nat) {
                Ok(w) => merge(acc, w),
                Err(x) => warn(acc, x),
            }
        }
    } else {
        acc
    };
    if acc.off > 0 && acc.size > 0 && acc.off + acc.size <= c.length {
        WalkView { thumbnail: Some((c.base + acc.off, acc.size)), ..linked.w }
    } else {
        linked.w
    }
}

/// The encodings that agree with a GPS value kind.
pub open spec fn kind_matches(k: Rtype, f: FMT) -> bool {
    match k {
        Rtype::RTyp => f == FMT::URATIONAL || f == FMT::SRATIONAL,
        Rtype::ATyp => f == FMT::STRING,
        Rtype::BTyp => f == FMT::BYTE,
        Rtype::STyp => f == FMT::USHORT || f == FMT::SSHORT,
        Rtype::UTyp => f == FMT::UNDEFINED,
    }
}

/// The walk of the GPS directory at `dirstart`.
pub open spec fn walk_gps(c: Ctx, dirstart: int) -> Result<GpsView, ExifError> {
    if dirstart < 0 || dirstart + 2 > c.end() {
        Err(ExifError::IllegalDirectorySize)
    } else {
        let n = u16_val(c.buf, dirstart, c.motorola);
        let dirend = entry_addr(dirstart, n);
        if !dir_fits(c, dirend) {
            Err(ExifError::IllegalDirectorySize)
        } else {
            gps_entries(
                c,
                dirstart,
                n,
                0,
                GpsView { entries: Seq::empty(), warnings: Seq::empty(), last_ref: dirend },
            )
        }
    }
}

/// The scan of entries `i..n` of the GPS directory at `dirstart`.
pub open spec fn gps_entries(c: Ctx, dirstart: int, n: int, i: int, acc: GpsView) -> Result<
    GpsView,
    ExifError,
>
    decreases n - i,
{
    if i >= n {
        Ok(acc)
    } else {
        match gps_step(c, entry_addr(dirstart, i), acc) {
            Err(e) => Err(e),
            Ok(a) => gps_entries(c, dirstart, n, i + 1, a),
        }
    }
}

/// The effect of the GPS entry at `e`: decoded by the kind that the GPS
/// table declares, under its name, with a warning where the format code
/// disagrees with that kind; ids that the table lacks are decoded by their
/// format code under `UndefinedTag`.
pub open spec fn gps_step(c: Ctx, e: int, acc: GpsView) -> Result<GpsView, ExifError> {
    if entry_code(c, e) >= NUM_FORMAT_CODES {
        Err(ExifError::IllegalFormat)
    } else if !pointer_ok(c, e) {
        Err(ExifError::IllegalValuePointer)
    } else {
        let f = fmt_of(entry_code(c, e));
        let last = max_of(acc.last_ref, value_ptr(c, e) + entry_bytecount(c, e));
        Ok(
            match find_gps_from(gps_catalog(), u16_val(c.buf, e, c.motorola), 0) {
                Some(t) => GpsView {
                    entries: acc.entries.push(gps_entry_view(c, e, t.name, t.rtyp)),
                    warnings: if kind_matches(t.rtyp, f) {
                        acc.warnings
                    } else {
                        acc.warnings.push(ExifError::GpsKindMismatch)
                    },
                    last_ref: last,
                },
                None => GpsView {
                    entries: acc.entries.push(entry_view(c, e, undefined_tag().name)),
                    warnings: acc.warnings,
                    last_ref: last,
                },
            },
        )
    }
}

/// The segment starts with the `Exif\0\0` marker.
pub open spec fn has_exif_marker(s: Seq<u8>) -> bool {
    &&& s.len() >= 6
    &&& s[0] == 0x45 && s[1] == 0x78 && s[2] == 0x69 && s[3] == 0x66
    &&& s[4] == 0 && s[5] == 0
}

/// The context of a segment whose byte order is `motorola`.
pub open spec fn segment_ctx(s: Seq<u8>, motorola: bool) -> Ctx {
    Ctx { buf: s, motorola, base: OFFSET_BASE as int, length: s.len() - OFFSET_BASE }
}

/// The parse of a whole segment: header checks, then the walk from the
/// first directory. An error of the first directory itself ends the parse.
pub open spec fn parse_segment(s: Seq<u8>) -> Result<WalkView, ExifError> {
    if s.len() > MAX_SEGMENT_LEN {
        Err(ExifError::SegmentTooLarge)
    } else if !has_exif_marker(s) {
        Err(ExifError::NoExifHeader)
    } else if s.len() < HEADER_LEN {
        Err(ExifError::TruncatedHeader)
    } else if !((s[6] == 0x4D && s[7] == 0x4D) || (s[6] == 0x49 && s[7] == 0x49)) {
        Err(ExifError::InvalidByteOrder)
    } else {
        let m = s[6] == 0x4D;
        if u16_val(s, 8, m) != 0x2A {
            Err(ExifError::InvalidTiffMagic)
        } else if u32_val(s, 10, m) < MIN_FIRST_IFD || u32_val(s, 10, m) > MAX_FIRST_IFD {
            Err(ExifError::SuspiciousFirstOffset)
        } else {
            walk_dir(
                segment_ctx(s, m),
                OFFSET_BASE + u32_val(s, 10, m),
                ROOT_LEVEL as int,
                MAX_LINKED_DIRS as nat,
            )
        }
    }
}

} // verus!
