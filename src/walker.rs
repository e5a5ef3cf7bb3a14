//! The directory walker: decodes a segment into its tree of tags.
use vstd::prelude::*;
use crate::bytes::{read_u16, read_u32, u16_val};
use crate::catalog::{
    exif_catalog, exif_tag_table, find_exif_index, find_gps_index, find_tag_from, is_exif_table,
    lemma_exif_table_infos, lemma_gps_table_infos, resolve_tag, undefined_tag, ExifTag, GpsBlock,
    Rtype, TagCategory, EXIF_TAG_COUNT,
};
use crate::format::{
    copy_bytes, decode_value, fmt_of, int_value, width, ExifValue, ValueView, FMT,
    NUM_FORMAT_CODES,
};
use crate::model::{
    add_gps, decoded_entry, gps_entry_view, kind_format, MAX_LINKED_DIRS, entry_bytecount, entry_code, entry_count, entry_view, finish_dir, gps_entries,
    gps_step, kind_matches, merge, parse_segment, pointer_ok, step_entry, value_ptr, walk_dir,
    walk_entries, walk_gps, Ctx, DirAcc, EntryView, ExifError, GpsView, NodeView, WalkView,
    HEADER_LEN, MAX_FIRST_IFD, MAX_NESTING, MAX_SEGMENT_LEN, MIN_FIRST_IFD, OFFSET_BASE,
    ROOT_LEVEL,
};

verus! {

/// One decoded entry: the tag's name, its encoding, its number of
/// components, its value, and where the value lies in the segment.
#[derive(Debug)]
pub struct ExifEntry {
    pub name: String,
    pub format: FMT,
    pub count: u32,
    pub val: ExifValue,
    pub offset: usize,
}

impl View for ExifEntry {
    type V = EntryView;

    open spec fn view(&self) -> EntryView {
        EntryView {
            name: self.name@,
            format: self.format,
            count: self.count as int,
            val: self.val@,
            offset: self.offset as int,
        }
    }
}

/// One node of a directory's result: a tag, or the GPS directory.
#[derive(Debug)]
pub enum ExifNode {
    Tag(ExifEntry),
    Gps(Vec<ExifEntry>),
}

pub open spec fn entry_views(v: Seq<ExifEntry>) -> Seq<EntryView> {
    v.map_values(|e: ExifEntry| e@)
}

impl View for ExifNode {
    type V = NodeView;

    open spec fn view(&self) -> NodeView {
        match self {
            ExifNode::Tag(e) => NodeView::Tag(e@),
            ExifNode::Gps(v) => NodeView::Gps(entry_views(v@)),
        }
    }
}

pub open spec fn node_views(v: Seq<ExifNode>) -> Seq<NodeView> {
    v.map_values(|n: ExifNode| n@)
}

pub open spec fn thumb_view(t: Option<(usize, usize)>) -> Option<(int, int)> {
    match t {
        Some(p) => Some((p.0 as int, p.1 as int)),
        None => None,
    }
}

/// The result of walking one directory.
pub struct DirResult {
    pub nodes: Vec<ExifNode>,
    pub warnings: Vec<ExifError>,
    pub last_ref: usize,
    pub thumbnail: Option<(usize, usize)>,
}

impl View for DirResult {
    type V = WalkView;

    open spec fn view(&self) -> WalkView {
        WalkView {
            nodes: node_views(self.nodes@),
            warnings: self.warnings@,
            last_ref: self.last_ref as int,
            thumbnail: thumb_view(self.thumbnail),
        }
    }
}

/// The result of walking a GPS directory.
pub struct GpsResult {
    pub entries: Vec<ExifEntry>,
    pub warnings: Vec<ExifError>,
    pub last_ref: usize,
}

impl View for GpsResult {
    type V = GpsView;

    open spec fn view(&self) -> GpsView {
        GpsView {
            entries: entry_views(self.entries@),
            warnings: self.warnings@,
            last_ref: self.last_ref as int,
        }
    }
}

/// `r` is the executable counterpart of the modelled walk `s`.
pub open spec fn walk_matches(r: Result<DirResult, ExifError>, s: Result<WalkView, ExifError>) -> bool {
    match s {
        Ok(w) => r is Ok && r->Ok_0@ == w,
        Err(e) => r == Err::<DirResult, ExifError>(e),
    }
}

/// `r` is the executable counterpart of the modelled GPS walk `s`.
pub open spec fn gps_matches(r: Result<GpsResult, ExifError>, s: Result<GpsView, ExifError>) -> bool {
    match s {
        Ok(g) => r is Ok && r->Ok_0@ == g,
        Err(e) => r == Err::<GpsResult, ExifError>(e),
    }
}

pub open spec fn acc_view(acc: DirResult, off: i64, size: i64) -> DirAcc {
    DirAcc { w: acc@, off: off as int, size: size as int }
}

/// Tag tables, the segment under parse, and the result of the last parse.
pub struct ExifBlock {
    exif_tags: Vec<ExifTag>,
    gps: GpsBlock,
    raw_exif: Vec<u8>,
    motorola_order: bool,
    tree: Vec<ExifNode>,
    warnings: Vec<ExifError>,
    lastexifrefd: usize,
    thumbnail: Option<(usize, usize)>,
}

impl ExifBlock {
    /// The tag tables are the standard ones.
    pub closed spec fn wf(&self) -> bool {
        is_exif_table(self.exif_tags@) && self.gps.wf()
    }

    /// The segment under parse, as the walker addresses it.
    pub closed spec fn ctx(&self) -> Ctx {
        Ctx {
            buf: self.raw_exif@,
            motorola: self.motorola_order,
            base: OFFSET_BASE as int,
            length: self.raw_exif@.len() - OFFSET_BASE,
        }
    }

    pub closed spec fn walk_ready(&self) -> bool {
        self.wf() && self.raw_exif@.len() >= OFFSET_BASE && self.ctx().wf()
    }

    /// The result of the last successful parse; empty before any.
    pub closed spec fn result(&self) -> WalkView {
        WalkView {
            nodes: node_views(self.tree@),
            warnings: self.warnings@,
            last_ref: self.lastexifrefd as int,
            thumbnail: thumb_view(self.thumbnail),
        }
    }

    /// Length of the segment of the last successful parse.
    pub closed spec fn raw_len(&self) -> int {
        self.raw_exif@.len() as int
    }

    /// A block with the standard tag tables and no parse result.
    pub fn new() -> (r: ExifBlock)
        ensures
            r.wf(),
            r.result().nodes.len() == 0,
            r.result().warnings.len() == 0,
            r.result().thumbnail is None,
            r.raw_len() == 0,
    {
        let r = ExifBlock {
            exif_tags: exif_tag_table(),
            gps: GpsBlock::new(),
            raw_exif: Vec::new(),
            motorola_order: false,
            tree: Vec::new(),
            warnings: Vec::new(),
            lastexifrefd: 0,
            thumbnail: None,
        };
        proof {
            assert(node_views(r.tree@) =~= Seq::<NodeView>::empty());
        }
        r
    }

    /// Parses the first `length` bytes of `exifsection`, an APP1 payload
    /// starting with `Exif\0\0`, and keeps the result in the block.
    pub fn open(&mut self, exifsection: &[u8], length: usize) -> (r: Result<(), ExifError>)
        requires
            old(self).wf(),
        ensures
            final(self).wf(),
            length > exifsection@.len() ==> r == Err::<(), ExifError>(ExifError::InvalidLength),
            length <= exifsection@.len() ==> match parse_segment(
                exifsection@.subrange(0, length as int),
            ) {
                Ok(w) => r is Ok && final(self).result() == w && final(self).raw_len() == length,
                Err(e) => r == Err::<(), ExifError>(e),
            },
            r is Err ==> final(self).result().nodes.len() == 0,
    {
        self.tree = Vec::new();
        self.warnings = Vec::new();
        self.lastexifrefd = 0;
        self.thumbnail = None;
        proof {
            assert(node_views(self.tree@) =~= Seq::<NodeView>::empty());
        }
        if length > exifsection.len() {
            return Err(ExifError::InvalidLength);
        }
        if length > MAX_SEGMENT_LEN {
            return Err(ExifError::SegmentTooLarge);
        }
        let seg = copy_bytes(exifsection, 0, length);
        let s = seg.as_slice();
        if !(length >= 6 && s[0] == 0x45 && s[1] == 0x78 && s[2] == 0x69 && s[3] == 0x66 && s[4]
            == 0 && s[5] == 0) {
            return Err(ExifError::NoExifHeader);
        }
        if length < HEADER_LEN {
            return Err(ExifError::TruncatedHeader);
        }
        let motorola = if s[6] == 0x4D && s[7] == 0x4D {
            true
        } else if s[6] == 0x49 && s[7] == 0x49 {
            false
        } else {
            return Err(ExifError::InvalidByteOrder);
        };
        if read_u16(s, 8, motorola) != 0x2A {
            return Err(ExifError::InvalidTiffMagic);
        }
        let first = read_u32(s, 10, motorola);
        if first < MIN_FIRST_IFD || first > MAX_FIRST_IFD {
            return Err(ExifError::SuspiciousFirstOffset);
        }
        self.raw_exif = seg;
        self.motorola_order = motorola;
        match self.walk_directory(OFFSET_BASE + first as usize, ROOT_LEVEL, MAX_LINKED_DIRS) {
            Ok(res) => {
                self.tree = res.nodes;
                self.warnings = res.warnings;
                self.lastexifrefd = res.last_ref;
                self.thumbnail = res.thumbnail;
                Ok(())
            },
            Err(e) => Err(e),
        }
    }

    /// Name of the main-table entry of `id`.
    pub fn get_name(&self, id: u16) -> (r: Option<&String>)
        requires
            self.wf(),
        ensures
            match find_tag_from(exif_catalog(), id as int, 0) {
                Some(t) => r is Some && r->0@ == t.name,
                None => r is None,
            },
    {
        proof {
            lemma_exif_table_infos(self.exif_tags@);
        }
        match find_exif_index(&self.exif_tags, id) {
            Some(k) => Some(&self.exif_tags[k].name),
            None => None,
        }
    }

    /// The main-table entry of `id`.
    pub fn get_tag(&self, id: u16) -> (r: Option<&ExifTag>)
        requires
            self.wf(),
        ensures
            match find_tag_from(exif_catalog(), id as int, 0) {
                Some(t) => r is Some && r->0@ == t,
                None => r is None,
            },
    {
        proof {
            lemma_exif_table_infos(self.exif_tags@);
        }
        match find_exif_index(&self.exif_tags, id) {
            Some(k) => Some(&self.exif_tags[k]),
            None => None,
        }
    }

    /// The decoded nodes of the last parse, in scan order.
    pub fn nodes(&self) -> (r: &Vec<ExifNode>)
        ensures
            node_views(r@) == self.result().nodes,
    {
        &self.tree
    }

    /// Errors of the subtrees that the last parse skipped.
    pub fn warnings(&self) -> (r: &Vec<ExifError>)
        ensures
            r@ == self.result().warnings,
    {
        &self.warnings
    }

    /// Start and length, in the segment, of the embedded thumbnail.
    pub fn thumbnail(&self) -> (r: Option<(usize, usize)>)
        ensures
            thumb_view(r) == self.result().thumbnail,
    {
        self.thumbnail
    }

    /// End of the last byte that the last parse referenced.
    pub fn last_referenced_offset(&self) -> (r: usize)
        ensures
            r as int == self.result().last_ref,
    {
        self.lastexifrefd
    }

    /// Length of the segment of the last parse.
    pub fn raw_exif_length(&self) -> (r: usize)
        ensures
            r as int == self.raw_len(),
    {
        self.raw_exif.len()
    }

    /// The value of the last top-level tag named `name`.
    pub fn get_value(&self, name: &str) -> (r: Option<&ExifValue>)
        ensures
            match last_value(self.result().nodes, name@, self.result().nodes.len() as int) {
                Some(v) => r is Some && r->0@ == v,
                None => r is None,
            },
    {
        let key = name.to_owned();
        let ghost nodes = node_views(self.tree@);
        let mut i: usize = self.tree.len();
        while i > 0
            invariant
                i <= self.tree@.len(),
                nodes == node_views(self.tree@),
                key@ == name@,
                last_value(nodes, name@, nodes.len() as int) == last_value(nodes, name@, i as int),
            decreases i,
        {
            match &self.tree[i - 1] {
                ExifNode::Tag(e) => {
                    if e.name == key {
                        return Some(&e.val);
                    }
                },
                ExifNode::Gps(_) => {},
            }
            i = i - 1;
        }
        None
    }

    /// The main-table entry of `id`, the sentinel where the table lacks it.
    fn resolve(&self, id: u16) -> (r: &ExifTag)
        requires
            self.wf(),
        ensures
            r@ == resolve_tag(id as int),
    {
        proof {
            lemma_exif_table_infos(self.exif_tags@);
        }
        match find_exif_index(&self.exif_tags, id) {
            Some(k) => &self.exif_tags[k],
            None => {
                assert(self.exif_tags@[EXIF_TAG_COUNT - 1]@ == undefined_tag());
                &self.exif_tags[EXIF_TAG_COUNT - 1]
            },
        }
    }

    /// Where the value of the entry at `e` lies: its encoding, its number
    /// of components, its address and its size in bytes.
    fn entry_layout(&self, e: usize) -> (r: Result<(FMT, u32, usize, usize), ExifError>)
        requires
            self.walk_ready(),
            e + 12 <= self.raw_exif@.len(),
        ensures
            ({
                let c = self.ctx();
                match r {
                    Ok((f, count, ptr, bc)) => {
                        &&& entry_code(c, e as int) < NUM_FORMAT_CODES
                        &&& pointer_ok(c, e as int)
                        &&& f == fmt_of(entry_code(c, e as int))
                        &&& count as int == entry_count(c, e as int)
                        &&& ptr as int == value_ptr(c, e as int)
                        &&& bc as int == entry_bytecount(c, e as int)
                        &&& ptr + bc <= c.buf.len()
                        &&& ptr + 4 <= c.buf.len()
                    },
                    Err(x) => {
                        &&& entry_code(c, e as int) >= NUM_FORMAT_CODES ==> x
                            == ExifError::IllegalFormat
                        &&& entry_code(c, e as int) < NUM_FORMAT_CODES ==> !pointer_ok(c, e as int)
                            && x == ExifError::IllegalValuePointer
                    },
                }
            }),
    {
        let buf = self.raw_exif.as_slice();
        let m = self.motorola_order;
        let length = buf.len() - OFFSET_BASE;
        let code = read_u16(buf, e + 2, m);
        if code >= NUM_FORMAT_CODES {
            return Err(ExifError::IllegalFormat);
        }
        let f = FMT::from(code);
        let count = read_u32(buf, e + 4, m);
        let w = f.bytes_per_component();
        proof {
            assert(count as int * w as int <= 0xFFFF_FFFF * 8) by (nonlinear_arith)
                requires
                    count <= 0xFFFF_FFFF,
                    w <= 8,
            ;
        }
        let bytecount: u64 = count as u64 * w as u64;
        if bytecount > 4 {
            let offv = read_u32(buf, e + 8, m);
            if offv as u64 + bytecount > length as u64 {
                return Err(ExifError::IllegalValuePointer);
            }
            Ok((f, count, OFFSET_BASE + offv as usize, bytecount as usize))
        } else {
            Ok((f, count, e + 8, bytecount as usize))
        }
    }

    /// Decodes `count` components of encoding `f` at `ptr` under the name `name`.
    fn decode_entry(&self, name: String, f: FMT, count: u32, ptr: usize) -> (r: ExifEntry)
        requires
            self.walk_ready(),
            f != FMT::NUM_FORMATS,
            ptr + count * width(f) <= self.raw_exif@.len(),
        ensures
            r@ == decoded_entry(self.ctx(), name@, f, count as int, ptr as int),
    {
        let val = decode_value(self.raw_exif.as_slice(), self.motorola_order, f, ptr, count);
        ExifEntry { name, format: f, count, val, offset: ptr }
    }

    /// Walks the directory at `dirstart`, at nesting level `level`, when the
    /// chain of next-directory links may add `links` more directories.
    fn walk_directory(&self, dirstart: usize, level: u32, links: u32) -> (r: Result<
        DirResult,
        ExifError,
    >)
        requires
            self.walk_ready(),
            level <= MAX_NESTING,
        ensures
            walk_matches(r, walk_dir(self.ctx(), dirstart as int, level as int, links as nat)),
        decreases MAX_NESTING - level, links, 3int,
    {
        let buf = self.raw_exif.as_slice();
        let m = self.motorola_order;
        let blen = buf.len();
        if dirstart > blen || blen - dirstart < 2 {
            return Err(ExifError::IllegalDirectorySize);
        }
        let n = read_u16(buf, dirstart, m) as usize;
        let rem = blen - dirstart;
        let need = 2 + 12 * n;
        if !(need + 4 <= rem || need + 2 == rem || need == rem) {
            return Err(ExifError::IllegalDirectorySize);
        }
        let dirend = dirstart + need;
        let mut acc = DirResult {
            nodes: Vec::new(),
            warnings: Vec::new(),
            last_ref: dirend,
            thumbnail: None,
        };
        let mut off: i64 = 0;
        let mut size: i64 = 0;
        let ghost c = self.ctx();
        proof {
            assert(node_views(acc.nodes@) =~= Seq::<NodeView>::empty());
            assert(acc.warnings@ =~= Seq::<ExifError>::empty());
        }
        let ghost start = acc_view(acc, off, size);
        assert(start == DirAcc {
            w: WalkView {
                nodes: Seq::empty(),
                warnings: Seq::empty(),
                last_ref: dirend as int,
                thumbnail: None,
            },
            off: 0,
            size: 0,
        });
        let mut i: usize = 0;
        while i < n
            invariant
                self.walk_ready(),
                level <= MAX_NESTING,
                c == self.ctx(),
                blen == c.buf.len(),
                i <= n,
                n == u16_val(c.buf, dirstart as int, m),
                m == c.motorola,
                dirstart + 2 + 12 * n <= blen,
                walk_dir(c, dirstart as int, level as int, links as nat) == (match walk_entries(
                    c,
                    dirstart as int,
                    n as int,
                    level as int,
                    links as nat,
                    0,
                    start,
                ) {
                    Err(x) => Err(x),
                    Ok(a) => Ok(finish_dir(c, dirend as int, level as int, links as nat, a)),
                }),
                walk_entries(c, dirstart as int, n as int, level as int, links as nat, 0, start)
                    == walk_entries(
                    c,
                    dirstart as int,
                    n as int,
                    level as int,
                    links as nat,
                    i as int,
                    acc_view(acc, off, size),
                ),
            decreases n - i,
        {
            let e = dirstart + 2 + 12 * i;
            let ghost prev = acc_view(acc, off, size);
            match self.step(e, level, &mut acc, &mut off, &mut size) {
                Err(x) => {
                    assert(walk_entries(
                        c,
                        dirstart as int,
                        n as int,
                        level as int,
                        links as nat,
                        i as int,
                        prev,
                    ) == Err::<DirAcc, ExifError>(x));
                    return Err(x);
                },
                Ok(()) => {},
            }
            i = i + 1;
        }
        if need + 4 <= rem {
            let link = read_u32(buf, dirend, m);
            if link != 0 && link as u64 <= (blen - OFFSET_BASE) as u64 {
                if links == 0 {
                    acc.warnings.push(ExifError::LinkChainTooLong);
                } else {
                    match self.walk_directory(OFFSET_BASE + link as usize, level, links - 1) {
                        Ok(child) => merge_into(&mut acc, child),
                        Err(x) => acc.warnings.push(x),
                    }
                }
            }
        }
        if off > 0 && size > 0 && (off as u64) + (size as u64) <= (blen - OFFSET_BASE) as u64 {
            acc.thumbnail = Some((OFFSET_BASE + off as usize, size as usize));
        }
        Ok(acc)
    }

    /// Applies the entry at `e` to its directory's result.
    fn step(&self, e: usize, level: u32, acc: &mut DirResult, off: &mut i64, size: &mut i64) -> (r:
        Result<(), ExifError>)
        requires
            self.walk_ready(),
            e + 12 <= self.raw_exif@.len(),
            level <= MAX_NESTING,
        ensures
            match step_entry(
                self.ctx(),
                e as int,
                level as int,
                acc_view(*old(acc), *old(off), *old(size)),
            ) {
                Ok(a) => r is Ok && a == acc_view(*final(acc), *final(off), *final(size)),
                Err(x) => r == Err::<(), ExifError>(x),
            },
        decreases MAX_NESTING - level, 0int, 1int,
    {
        let buf = self.raw_exif.as_slice();
        let m = self.motorola_order;
        let length = buf.len() - OFFSET_BASE;
        let id = read_u16(buf, e, m);
        let tag = self.resolve(id);
        let (f, count, ptr, bc) = match self.entry_layout(e) {
            Ok(l) => l,
            Err(x) => {
                return Err(x);
            },
        };
        if ptr + bc > acc.last_ref {
            acc.last_ref = ptr + bc;
        }
        match tag.category {
            TagCategory::GpsPointer => {
                let link = read_u32(buf, ptr, m);
                if link as u64 > length as u64 {
                    acc.warnings.push(ExifError::IllegalSubdirLink);
                } else if level >= MAX_NESTING {
                    acc.warnings.push(ExifError::MaxNestingExceeded);
                } else {
                    match self.walk_gps_dir(OFFSET_BASE + link as usize) {
                        Ok(g) => add_gps_into(acc, g),
                        Err(x) => acc.warnings.push(x),
                    }
                }
            },
            TagCategory::SubIfdPointer => {
                let link = read_u32(buf, ptr, m);
                if link as u64 > length as u64 {
                    acc.warnings.push(ExifError::IllegalSubdirLink);
                } else if level >= MAX_NESTING {
                    acc.warnings.push(ExifError::MaxNestingExceeded);
                } else {
                    match self.walk_directory(
                        OFFSET_BASE + link as usize,
                        level + 1,
                        MAX_LINKED_DIRS,
                    ) {
                        Ok(child) => merge_into(acc, child),
                        Err(x) => acc.warnings.push(x),
                    }
                }
            },
            TagCategory::ThumbnailOffset => {
                *off = int_value(buf, m, f, ptr);
            },
            TagCategory::ThumbnailLength => {
                *size = int_value(buf, m, f, ptr);
            },
            TagCategory::Ordinary => {
                let entry = self.decode_entry(tag.name.clone(), f, count, ptr);
                let ghost before = acc.nodes@;
                acc.nodes.push(ExifNode::Tag(entry));
                proof {
                    assert(node_views(acc.nodes@) =~= node_views(before).push(
                        NodeView::Tag(entry@),
                    ));
                }
            },
        }
        Ok(())
    }

    /// Walks the GPS directory at `dirstart`.
    fn walk_gps_dir(&self, dirstart: usize) -> (r: Result<GpsResult, ExifError>)
        requires
            self.walk_ready(),
        ensures
            gps_matches(r, walk_gps(self.ctx(), dirstart as int)),
    {
        let buf = self.raw_exif.as_slice();
        let m = self.motorola_order;
        let blen = buf.len();
        if dirstart > blen || blen - dirstart < 2 {
            return Err(ExifError::IllegalDirectorySize);
        }
        let n = read_u16(buf, dirstart, m) as usize;
        let rem = blen - dirstart;
        let need = 2 + 12 * n;
        if !(need + 4 <= rem || need + 2 == rem || need == rem) {
            return Err(ExifError::IllegalDirectorySize);
        }
        let mut acc = GpsResult {
            entries: Vec::new(),
            warnings: Vec::new(),
            last_ref: dirstart + need,
        };
        let ghost c = self.ctx();
        proof {
            assert(entry_views(acc.entries@) =~= Seq::<EntryView>::empty());
            assert(acc.warnings@ =~= Seq::<ExifError>::empty());
        }
        let ghost start = acc@;
        assert(start == GpsView {
            entries: Seq::empty(),
            warnings: Seq::empty(),
            last_ref: dirstart + need,
        });
        let mut i: usize = 0;
        while i < n
            invariant
                self.walk_ready(),
                c == self.ctx(),
                blen == c.buf.len(),
                i <= n,
                n == u16_val(c.buf, dirstart as int, m),
                m == c.motorola,
                dirstart + 2 + 12 * n <= blen,
                walk_gps(c, dirstart as int) == gps_entries(c, dirstart as int, n as int, 0, start),
                gps_entries(c, dirstart as int, n as int, 0, start) == gps_entries(
                    c,
                    dirstart as int,
                    n as int,
                    i as int,
                    acc@,
                ),
            decreases n - i,
        {
            let e = dirstart + 2 + 12 * i;
            let ghost prev = acc@;
            match self.gps_entry(e, &mut acc) {
                Err(x) => {
                    assert(gps_entries(c, dirstart as int, n as int, i as int, prev) == Err::<
                        GpsView,
                        ExifError,
                    >(x));
                    return Err(x);
                },
                Ok(()) => {},
            }
            i = i + 1;
        }
        Ok(acc)
    }

    /// Applies the GPS entry at `e` to the GPS directory's result.
    fn gps_entry(&self, e: usize, acc: &mut GpsResult) -> (r: Result<(), ExifError>)
        requires
            self.walk_ready(),
            e + 12 <= self.raw_exif@.len(),
        ensures
            match gps_step(self.ctx(), e as int, old(acc)@) {
                Ok(a) => r is Ok && a == final(acc)@,
                Err(x) => r == Err::<(), ExifError>(x),
            },
    {
        let buf = self.raw_exif.as_slice();
        let m = self.motorola_order;
        let id = read_u16(buf, e, m);
        let (f, count, ptr, bc) = match self.entry_layout(e) {
            Ok(l) => l,
            Err(x) => {
                return Err(x);
            },
        };
        if ptr + bc > acc.last_ref {
            acc.last_ref = ptr + bc;
        }
        proof {
            lemma_gps_table_infos(self.gps.gps_tags@);
        }
        let ghost before = acc.entries@;
        match find_gps_index(&self.gps.gps_tags, id) {
            Some(k) => {
                let t = &self.gps.gps_tags[k];
                let entry = if kind_agrees(t.rtyp, f) {
                    self.decode_entry(t.name.clone(), f, count, ptr)
                } else {
                    acc.warnings.push(ExifError::GpsKindMismatch);
                    let kf = kind_format_of(t.rtyp);
                    let w = kf.bytes_per_component();
                    let kc = bc / w;
                    proof {
                        assert(kc * w <= bc) by (nonlinear_arith)
                            requires
                                kc == bc / w,
                                w > 0,
                        ;
                    }
                    self.decode_entry(t.name.clone(), kf, kc as u32, ptr)
                };
                acc.entries.push(entry);
                proof {
                    assert(entry_views(acc.entries@) =~= entry_views(before).push(entry@));
                }
            },
            None => {
                let entry = self.decode_entry(String::from_str("UndefinedTag"), f, count, ptr);
                acc.entries.push(entry);
                proof {
                    assert(entry_views(acc.entries@) =~= entry_views(before).push(entry@));
                }
            },
        }
        Ok(())
    }
}

impl Default for ExifBlock {
    fn default() -> (r: ExifBlock)
        ensures
            r.wf(),
            r.result().nodes.len() == 0,
            r.result().warnings.len() == 0,
            r.result().thumbnail is None,
            r.raw_len() == 0,
    {
        ExifBlock::new()
    }
}

/// The value of the last tag node named `name` among the first `i` nodes.
pub open spec fn last_value(nodes: Seq<NodeView>, name: Seq<char>, i: int) -> Option<ValueView>
    decreases i,
{
    if i <= 0 || i > nodes.len() {
        None
    } else {
        match nodes[i - 1] {
            NodeView::Tag(e) => if e.name == name {
                Some(e.val)
            } else {
                last_value(nodes, name, i - 1)
            },
            NodeView::Gps(_) => last_value(nodes, name, i - 1),
        }
    }
}

/// The encoding that the GPS value kind `k` stands for.
fn kind_format_of(k: Rtype) -> (r: FMT)
    ensures
        r == kind_format(k),
{
    match k {
        Rtype::RTyp => FMT::URATIONAL,
        Rtype::ATyp => FMT::STRING,
        Rtype::BTyp => FMT::BYTE,
        Rtype::STyp => FMT::SSHORT,
        Rtype::UTyp => FMT::UNDEFINED,
    }
}

/// Whether encoding `f` agrees with the GPS value kind `k`.
fn kind_agrees(k: Rtype, f: FMT) -> (r: bool)
    ensures
        r == kind_matches(k, f),
{
    match k {
        Rtype::RTyp => match f {
            FMT::URATIONAL | FMT::SRATIONAL => true,
            _ => false,
        },
        Rtype::ATyp => match f {
            FMT::STRING => true,
            _ => false,
        },
        Rtype::BTyp => match f {
            FMT::BYTE => true,
            _ => false,
        },
        Rtype::STyp => match f {
            FMT::USHORT | FMT::SSHORT => true,
            _ => false,
        },
        Rtype::UTyp => match f {
            FMT::UNDEFINED => true,
            _ => false,
        },
    }
}

/// Folds a nested directory's result into `acc`.
fn merge_into(acc: &mut DirResult, child: DirResult)
    ensures
        final(acc)@ == merge(DirAcc { w: old(acc)@, off: 0, size: 0 }, child@).w,
{
    let ghost old_nodes = acc.nodes@;
    let ghost child_nodes = child.nodes@;
    let mut child = child;
    acc.nodes.append(&mut child.nodes);
    acc.warnings.append(&mut child.warnings);
    if child.last_ref > acc.last_ref {
        acc.last_ref = child.last_ref;
    }
    if child.thumbnail.is_some() {
        acc.thumbnail = child.thumbnail;
    }
    proof {
        assert(node_views(acc.nodes@) =~= node_views(old_nodes) + node_views(child_nodes));
    }
}

/// Records a GPS directory's result in `acc` under one node.
fn add_gps_into(acc: &mut DirResult, g: GpsResult)
    ensures
        final(acc)@ == add_gps(DirAcc { w: old(acc)@, off: 0, size: 0 }, g@).w,
{
    let ghost old_nodes = acc.nodes@;
    let mut g = g;
    acc.warnings.append(&mut g.warnings);
    if g.last_ref > acc.last_ref {
        acc.last_ref = g.last_ref;
    }
    let node = ExifNode::Gps(g.entries);
    acc.nodes.push(node);
    proof {
        assert(node_views(acc.nodes@) =~= node_views(old_nodes).push(node@));
    }
}

} // verus!
