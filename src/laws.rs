//! Properties of the parse, stated over the model and proved.
use vstd::prelude::*;
use crate::bytes::{u16_val, u32_val};
use crate::catalog::{
    exif_catalog, exif_tag_at, find_tag_from, resolve_tag, undefined_tag, TagCategory, TagInfo,
    EXIF_TAG_COUNT,
};
use crate::format::{
    base64_of, decoded_value, width, ValueView, FMT, INLINE_BYTES_MAX, NUM_FORMAT_CODES,
};
use crate::model::{
    finish_dir, walk_entries, MAX_LINKED_DIRS, dir_fits, entry_addr, entry_bytecount, entry_code, entry_view, link_at, pointer_ok,
    push_node, step_entry, touch, value_ptr, walk_dir, walk_gps, warn, Ctx, DirAcc, ExifError,
    NodeView, WalkView, MAX_NESTING,
};

verus! {

/// Reading a field big-endian gives the value that reading its bytes in
/// reverse order little-endian gives: both byte orders carry the same
/// numbers.
pub proof fn lemma_byte_orders_agree(b: Seq<u8>, p: int)
    requires
        0 <= p,
        p + 4 <= b.len(),
    ensures
        u16_val(b, p, true) == u16_val(seq![b[p + 1], b[p]], 0, false),
        u32_val(b, p, true) == u32_val(seq![b[p + 3], b[p + 2], b[p + 1], b[p]], 0, false),
{
}

/// A directory whose stated number of entries does not fit in the segment
/// is rejected before any entry is read.
pub proof fn lemma_oversized_directory(c: Ctx, dirstart: int, level: int, links: nat)
    requires
        0 <= dirstart,
        dirstart + 2 <= c.end(),
        !dir_fits(c, entry_addr(dirstart, u16_val(c.buf, dirstart, c.motorola))),
    ensures
        walk_dir(c, dirstart, level, links) == Err::<WalkView, ExifError>(
            ExifError::IllegalDirectorySize,
        ),
{
}

/// An entry whose value lies at an offset beyond the segment is rejected.
pub proof fn lemma_value_pointer_checked(c: Ctx, e: int, level: int, acc: DirAcc)
    requires
        entry_code(c, e) < NUM_FORMAT_CODES,
        entry_bytecount(c, e) > 4,
        u32_val(c.buf, e + 8, c.motorola) + entry_bytecount(c, e) > c.length,
    ensures
        step_entry(c, e, level, acc) == Err::<DirAcc, ExifError>(ExifError::IllegalValuePointer),
{
}

/// A link to a nested directory found at the deepest level is not followed:
/// the entry records `MaxNestingExceeded` and the scan goes on.
pub proof fn lemma_nesting_bounded(c: Ctx, e: int, acc: DirAcc)
    requires
        resolve_tag(u16_val(c.buf, e, c.motorola)).category == TagCategory::SubIfdPointer
            || resolve_tag(u16_val(c.buf, e, c.motorola)).category == TagCategory::GpsPointer,
        entry_code(c, e) < NUM_FORMAT_CODES,
        pointer_ok(c, e),
        link_at(c, value_ptr(c, e)) <= c.length,
    ensures
        step_entry(c, e, MAX_NESTING as int, acc) == Ok::<DirAcc, ExifError>(
            warn(touch(acc, value_ptr(c, e) + entry_bytecount(c, e)), ExifError::MaxNestingExceeded),
        ),
{
}

/// Runs of `BYTE` components up to 120 bytes are kept as they are; longer
/// runs are carried as Base64 text.
pub proof fn lemma_inline_byte_threshold(b: Seq<u8>, m: bool, p: int, count: nat)
    ensures
        count <= INLINE_BYTES_MAX ==> decoded_value(b, m, FMT::BYTE, p, count) == ValueView::Bytes(
            b.subrange(p, p + count),
        ),
        count > INLINE_BYTES_MAX ==> decoded_value(b, m, FMT::BYTE, p, count) == ValueView::Base64(
            base64_of(b.subrange(p, p + count)),
        ),
{
    assert(count * width(FMT::BYTE) == count);
}

proof fn lemma_absent_id(cat: Seq<TagInfo>, id: int, i: int)
    requires
        0 <= i,
        forall|j: int| i <= j < cat.len() ==> #[trigger] cat[j].id != id,
    ensures
        find_tag_from(cat, id, i) is None,
    decreases cat.len() - i,
{
    if i < cat.len() {
        lemma_absent_id(cat, id, i + 1);
    }
}

/// A tag id missing from the main table resolves to the `UndefinedTag`
/// sentinel, and its entry is decoded under that name like any other
/// instead of failing the directory.
pub proof fn lemma_unknown_tag_recorded(c: Ctx, e: int, level: int, acc: DirAcc)
    requires
        forall|i: int|
            0 <= i < EXIF_TAG_COUNT ==> #[trigger] exif_tag_at(i).id != u16_val(
                c.buf,
                e,
                c.motorola,
            ),
        entry_code(c, e) < NUM_FORMAT_CODES,
        pointer_ok(c, e),
    ensures
        resolve_tag(u16_val(c.buf, e, c.motorola)) == undefined_tag(),
        step_entry(c, e, level, acc) == Ok::<DirAcc, ExifError>(
            push_node(
                touch(acc, value_ptr(c, e) + entry_bytecount(c, e)),
                NodeView::Tag(entry_view(c, e, "UndefinedTag"@)),
            ),
        ),
{
    let id = u16_val(c.buf, e, c.motorola);
    assert forall|j: int| 0 <= j < exif_catalog().len() implies #[trigger] exif_catalog()[j].id
        != id by {
        assert(exif_catalog()[j] == exif_tag_at(j));
    }
    lemma_absent_id(exif_catalog(), id, 0);
}

/// A GPS directory that fails to decode does not fail the directory that
/// points at it: the error is kept as a warning and the scan goes on with
/// the nodes found so far.
pub proof fn lemma_gps_failure_contained(c: Ctx, e: int, level: int, acc: DirAcc)
    requires
        resolve_tag(u16_val(c.buf, e, c.motorola)).category == TagCategory::GpsPointer,
        entry_code(c, e) < NUM_FORMAT_CODES,
        pointer_ok(c, e),
        walk_gps(c, c.base + link_at(c, value_ptr(c, e))) is Err,
    ensures
        step_entry(c, e, level, acc) is Ok,
        step_entry(c, e, level, acc)->Ok_0.w.nodes == acc.w.nodes,
{
}

/// The entry at `e` has a legal format code and a value inside the segment.
pub open spec fn entry_well_formed(c: Ctx, e: int) -> bool {
    entry_code(c, e) < NUM_FORMAT_CODES && pointer_ok(c, e)
}

/// The node that an entry of the `Ordinary` category adds.
pub open spec fn ordinary_node(c: Ctx, e: int) -> NodeView {
    NodeView::Tag(entry_view(c, e, resolve_tag(u16_val(c.buf, e, c.motorola)).name))
}

pub open spec fn is_ordinary(c: Ctx, e: int) -> bool {
    resolve_tag(u16_val(c.buf, e, c.motorola)).category == TagCategory::Ordinary
}

/// The entry at `e` points at a nested directory that lies past the nesting
/// limit, or whose own walk reports that some directory below it does.
pub open spec fn nests_past_limit(c: Ctx, e: int, level: int) -> bool {
    &&& entry_well_formed(c, e)
    &&& resolve_tag(u16_val(c.buf, e, c.motorola)).category == TagCategory::SubIfdPointer
    &&& link_at(c, value_ptr(c, e)) <= c.length
    &&& (level >= MAX_NESTING || {
        let sub = walk_dir(c, c.base + link_at(c, value_ptr(c, e)), level + 1, MAX_LINKED_DIRS as nat);
        sub is Ok && sub->Ok_0.warnings.contains(ExifError::MaxNestingExceeded)
    })
}

proof fn lemma_step_keeps(c: Ctx, e: int, level: int, acc: DirAcc)
    requires
        entry_well_formed(c, e),
    ensures
        step_entry(c, e, level, acc) is Ok,
        acc.w.nodes.is_prefix_of(step_entry(c, e, level, acc)->Ok_0.w.nodes),
        acc.w.warnings.is_prefix_of(step_entry(c, e, level, acc)->Ok_0.w.warnings),
        nests_past_limit(c, e, level) ==> step_entry(c, e, level, acc)->Ok_0.w.warnings.contains(
            ExifError::MaxNestingExceeded,
        ),
        is_ordinary(c, e) ==> step_entry(c, e, level, acc)->Ok_0.w.nodes == acc.w.nodes.push(
            ordinary_node(c, e),
        ),
{
    let r = step_entry(c, e, level, acc)->Ok_0.w.nodes;
    assert(acc.w.nodes.is_prefix_of(r)) by {
        assert(r.len() >= acc.w.nodes.len());
        assert(r.subrange(0, acc.w.nodes.len() as int) =~= acc.w.nodes);
    }
    let ws = step_entry(c, e, level, acc)->Ok_0.w.warnings;
    assert(acc.w.warnings.is_prefix_of(ws)) by {
        assert(ws.subrange(0, acc.w.warnings.len() as int) =~= acc.w.warnings);
    }
    if nests_past_limit(c, e, level) {
        if level >= MAX_NESTING {
            assert(ws[ws.len() - 1] == ExifError::MaxNestingExceeded);
        } else {
            let sub = walk_dir(
                c,
                c.base + link_at(c, value_ptr(c, e)),
                level + 1,
                MAX_LINKED_DIRS as nat,
            )->Ok_0.warnings;
            let k = choose|k: int| 0 <= k < sub.len() && sub[k] == ExifError::MaxNestingExceeded;
            assert(ws[acc.w.warnings.len() + k] == sub[k]);
        }
    }
}

proof fn lemma_entries_keep(
    c: Ctx,
    dirstart: int,
    n: int,
    level: int,
    links: nat,
    j: int,
    acc: DirAcc,
)
    requires
        0 <= j,
        forall|i: int| j <= i < n ==> #[trigger] entry_well_formed(c, entry_addr(dirstart, i)),
    ensures
        walk_entries(c, dirstart, n, level, links, j, acc) is Ok,
        acc.w.nodes.is_prefix_of(walk_entries(c, dirstart, n, level, links, j, acc)->Ok_0.w.nodes),
        acc.w.warnings.is_prefix_of(
            walk_entries(c, dirstart, n, level, links, j, acc)->Ok_0.w.warnings,
        ),
        (exists|i: int| j <= i < n && #[trigger] nests_past_limit(c, entry_addr(dirstart, i), level))
            ==> walk_entries(c, dirstart, n, level, links, j, acc)->Ok_0.w.warnings.contains(
            ExifError::MaxNestingExceeded,
        ),
        forall|i: int|
            j <= i < n && #[trigger] is_ordinary(c, entry_addr(dirstart, i)) ==> walk_entries(
                c,
                dirstart,
                n,
                level,
                links,
                j,
                acc,
            )->Ok_0.w.nodes.contains(ordinary_node(c, entry_addr(dirstart, i))),
    decreases n - j,
{
    if j < n {
        let e = entry_addr(dirstart, j);
        assert(entry_well_formed(c, e));
        lemma_step_keeps(c, e, level, acc);
        let a = step_entry(c, e, level, acc)->Ok_0;
        lemma_entries_keep(c, dirstart, n, level, links, j + 1, a);
        let r = walk_entries(c, dirstart, n, level, links, j, acc)->Ok_0.w.nodes;
        assert(r == walk_entries(c, dirstart, n, level, links, j + 1, a)->Ok_0.w.nodes);
        assert(acc.w.nodes.is_prefix_of(r)) by {
            assert(r.subrange(0, acc.w.nodes.len() as int) =~= a.w.nodes.subrange(
                0,
                acc.w.nodes.len() as int,
            ));
            assert(a.w.nodes.subrange(0, acc.w.nodes.len() as int) =~= acc.w.nodes);
        }
        if is_ordinary(c, e) {
            let k = acc.w.nodes.len() as int;
            assert(a.w.nodes[k] == ordinary_node(c, e));
            assert(r[k] == a.w.nodes[k]);
        }
        let rw = walk_entries(c, dirstart, n, level, links, j, acc)->Ok_0.w.warnings;
        assert(acc.w.warnings.is_prefix_of(rw)) by {
            assert(rw.subrange(0, acc.w.warnings.len() as int) =~= a.w.warnings.subrange(
                0,
                acc.w.warnings.len() as int,
            ));
            assert(a.w.warnings.subrange(0, acc.w.warnings.len() as int) =~= acc.w.warnings);
        }
        if nests_past_limit(c, e, level) {
            let k = choose|k: int|
                0 <= k < a.w.warnings.len() && a.w.warnings[k] == ExifError::MaxNestingExceeded;
            assert(rw[k] == a.w.warnings[k]);
        }
    }
}

proof fn lemma_finish_keeps(c: Ctx, dirend: int, level: int, links: nat, acc: DirAcc)
    ensures
        acc.w.nodes.is_prefix_of(finish_dir(c, dirend, level, links, acc).nodes),
        acc.w.warnings.is_prefix_of(finish_dir(c, dirend, level, links, acc).warnings),
{
    let w = finish_dir(c, dirend, level, links, acc);
    assert(w.nodes.subrange(0, acc.w.nodes.len() as int) =~= acc.w.nodes);
    assert(w.warnings.subrange(0, acc.w.warnings.len() as int) =~= acc.w.warnings);
}

/// The directory at `d` starts a chain of nested-directory pointers: entry
/// `path[0]` of `d` points at the next directory of the chain, whose entry
/// `path[1]` points further, and so on, `path.len()` links in all; every
/// directory's own entries are well formed.
pub open spec fn pointer_chain(c: Ctx, d: int, path: Seq<int>) -> bool
    decreases path.len(),
{
    let n = u16_val(c.buf, d, c.motorola);
    let e = entry_addr(d, path[0]);
    &&& 0 <= d
    &&& d + 2 <= c.end()
    &&& dir_fits(c, entry_addr(d, n))
    &&& forall|i: int| 0 <= i < n ==> #[trigger] entry_well_formed(c, entry_addr(d, i))
    &&& path.len() >= 1
    &&& 0 <= path[0] < n
    &&& resolve_tag(u16_val(c.buf, e, c.motorola)).category == TagCategory::SubIfdPointer
    &&& link_at(c, value_ptr(c, e)) <= c.length
    &&& (path.len() == 1 || pointer_chain(
        c,
        c.base + link_at(c, value_ptr(c, e)),
        path.drop_first(),
    ))
}

/// A chain of nested-directory pointers that reaches past the nesting limit
/// is walked to the limit and no further: the walk ends, succeeds, and
/// reports `MaxNestingExceeded`.
pub proof fn lemma_deep_chain_reports_nesting(
    c: Ctx,
    d: int,
    level: int,
    links: nat,
    path: Seq<int>,
)
    requires
        1 <= level <= MAX_NESTING,
        path.len() == MAX_NESTING - level + 1,
        pointer_chain(c, d, path),
    ensures
        walk_dir(c, d, level, links) is Ok,
        walk_dir(c, d, level, links)->Ok_0.warnings.contains(ExifError::MaxNestingExceeded),
    decreases MAX_NESTING - level,
{
    let n = u16_val(c.buf, d, c.motorola);
    let e = entry_addr(d, path[0]);
    assert(entry_well_formed(c, e));
    if level < MAX_NESTING {
        lemma_deep_chain_reports_nesting(
            c,
            c.base + link_at(c, value_ptr(c, e)),
            level + 1,
            MAX_LINKED_DIRS as nat,
            path.drop_first(),
        );
    }
    assert(nests_past_limit(c, e, level));
    let dirend = entry_addr(d, n);
    let start = DirAcc {
        w: WalkView {
            nodes: Seq::empty(),
            warnings: Seq::empty(),
            last_ref: dirend,
            thumbnail: None,
        },
        off: 0,
        size: 0,
    };
    lemma_entries_keep(c, d, n, level, links, 0, start);
    let acc = walk_entries(c, d, n, level, links, 0, start)->Ok_0;
    lemma_finish_keeps(c, dirend, level, links, acc);
    let w = finish_dir(c, dirend, level, links, acc);
    let k = choose|k: int|
        0 <= k < acc.w.warnings.len() && acc.w.warnings[k] == ExifError::MaxNestingExceeded;
    assert(w.warnings[k] == w.warnings.subrange(0, acc.w.warnings.len() as int)[k]);
}

/// A directory whose own entries are well formed decodes, whatever its
/// nested, GPS and next-linked directories hold: their failures are kept as
/// warnings, and every ordinary entry of the directory is in the result.
pub proof fn lemma_subtree_failures_contained(c: Ctx, dirstart: int, level: int, links: nat)
    requires
        0 <= dirstart,
        dirstart + 2 <= c.end(),
        dir_fits(c, entry_addr(dirstart, u16_val(c.buf, dirstart, c.motorola))),
        forall|i: int|
            0 <= i < u16_val(c.buf, dirstart, c.motorola) ==> #[trigger] entry_well_formed(
                c,
                entry_addr(dirstart, i),
            ),
    ensures
        walk_dir(c, dirstart, level, links) is Ok,
        forall|i: int|
            0 <= i < u16_val(c.buf, dirstart, c.motorola) && #[trigger] is_ordinary(
                c,
                entry_addr(dirstart, i),
            ) ==> walk_dir(c, dirstart, level, links)->Ok_0.nodes.contains(
                ordinary_node(c, entry_addr(dirstart, i)),
            ),
{
    let n = u16_val(c.buf, dirstart, c.motorola);
    let dirend = entry_addr(dirstart, n);
    let start = DirAcc {
        w: WalkView {
            nodes: Seq::empty(),
            warnings: Seq::empty(),
            last_ref: dirend,
            thumbnail: None,
        },
        off: 0,
        size: 0,
    };
    lemma_entries_keep(c, dirstart, n, level, links, 0, start);
    let acc = walk_entries(c, dirstart, n, level, links, 0, start)->Ok_0;
    let w = finish_dir(c, dirend, level, links, acc);
    assert(w.nodes.subrange(0, acc.w.nodes.len() as int) =~= acc.w.nodes);
    assert forall|i: int|
        0 <= i < n && #[trigger] is_ordinary(c, entry_addr(dirstart, i)) implies w.nodes.contains(
        ordinary_node(c, entry_addr(dirstart, i)),
    ) by {
        let x = ordinary_node(c, entry_addr(dirstart, i));
        let k = choose|k: int| 0 <= k < acc.w.nodes.len() && acc.w.nodes[k] == x;
        assert(w.nodes[k] == w.nodes.subrange(0, acc.w.nodes.len() as int)[k]);
    }
}

} // verus!
