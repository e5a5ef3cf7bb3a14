//! The parse result seen as a map from names to values that keeps the order
//! in which names first appear, a later value of a name replacing the
//! earlier one in place.
use vstd::prelude::*;
use crate::model::NodeView;
use crate::walker::{node_views, ExifBlock, ExifEntry, ExifNode};

verus! {

/// A key with the index of the value it stands for.
pub open spec fn pair_views(v: Seq<(String, usize)>) -> Seq<(Seq<char>, int)> {
    v.map_values(|p: (String, usize)| (p.0@, p.1 as int))
}

pub open spec fn string_views(v: Seq<String>) -> Seq<Seq<char>> {
    v.map_values(|s: String| s@)
}

/// Index of the first pair at or after `i` whose key is `k`.
pub open spec fn key_slot(acc: Seq<(Seq<char>, int)>, k: Seq<char>, i: int) -> Option<int>
    decreases acc.len() - i,
{
    if i < 0 || i >= acc.len() {
        None
    } else if acc[i].0 == k {
        Some(i)
    } else {
        key_slot(acc, k, i + 1)
    }
}

/// Inserts key `k` for value `v`: a key already there keeps its place and
/// takes the new value; a new key goes last.
pub open spec fn insert_key(acc: Seq<(Seq<char>, int)>, k: Seq<char>, v: int) -> Seq<
    (Seq<char>, int),
> {
    match key_slot(acc, k, 0) {
        Some(j) => acc.update(j, (k, v)),
        None => acc.push((k, v)),
    }
}

/// The map made by inserting the first `n` keys, key `i` for value `i`.
pub open spec fn keyed(keys: Seq<Seq<char>>, n: int) -> Seq<(Seq<char>, int)>
    decreases n,
{
    if n <= 0 {
        Seq::empty()
    } else {
        insert_key(keyed(keys, n - 1), keys[n - 1], n - 1)
    }
}

/// The key of a node: its tag's name, or `GPSInfo` for the GPS directory.
pub open spec fn node_key(n: NodeView) -> Seq<char> {
    match n {
        NodeView::Tag(e) => e.name,
        NodeView::Gps(_) => "GPSInfo"@,
    }
}

/// Index of the first pair of `acc` whose key is `k`.
fn find_key(acc: &Vec<(String, usize)>, k: &String) -> (r: Option<usize>)
    ensures
        match key_slot(pair_views(acc@), k@, 0) {
            Some(j) => r is Some && r->0 as int == j,
            None => r is None,
        },
        r is None ==> forall|a: int| 0 <= a < acc@.len() ==> #[trigger] acc@[a].0@ != k@,
        r is Some ==> r->0 < acc@.len() && acc@[r->0 as int].0@ == k@,
{
    let ghost pv = pair_views(acc@);
    let mut i: usize = 0;
    while i < acc.len()
        invariant
            i <= acc@.len(),
            pv == pair_views(acc@),
            key_slot(pv, k@, 0) == key_slot(pv, k@, i as int),
            forall|a: int| 0 <= a < i ==> #[trigger] acc@[a].0@ != k@,
        decreases acc@.len() - i,
    {
        assert(pv[i as int].0 == acc@[i as int].0@);
        if acc[i].0 == *k {
            return Some(i);
        }
        i = i + 1;
    }
    None
}

/// Orders `keys` as a map that keeps insertion order: each distinct key
/// once, where it first appears, with the index of its last occurrence.
pub fn key_order(keys: &Vec<String>) -> (r: Vec<(String, usize)>)
    ensures
        pair_views(r@) == keyed(string_views(keys@), keys@.len() as int),
        forall|a: int, b: int| 0 <= a < b < r@.len() ==> r@[a].0@ != r@[b].0@,
        forall|a: int|
            0 <= a < r@.len() ==> {
                &&& #[trigger] r@[a].1 < keys@.len()
                &&& keys@[r@[a].1 as int]@ == r@[a].0@
                &&& forall|j: int| r@[a].1 < j < keys@.len() ==> keys@[j]@ != r@[a].0@
            },
{
    let ghost kv = string_views(keys@);
    let mut out: Vec<(String, usize)> = Vec::new();
    proof {
        assert(pair_views(out@) =~= Seq::<(Seq<char>, int)>::empty());
    }
    let mut i: usize = 0;
    while i < keys.len()
        invariant
            i <= keys@.len(),
            kv == string_views(keys@),
            pair_views(out@) == keyed(kv, i as int),
            forall|a: int, b: int| 0 <= a < b < out@.len() ==> out@[a].0@ != out@[b].0@,
            forall|a: int|
                0 <= a < out@.len() ==> {
                    &&& #[trigger] out@[a].1 < i
                    &&& keys@[out@[a].1 as int]@ == out@[a].0@
                    &&& forall|j: int| out@[a].1 < j < i ==> keys@[j]@ != out@[a].0@
                },
        decreases keys@.len() - i,
    {
        let k = keys[i].clone();
        let ghost before = out@;
        assert(kv[i as int] == k@);
        assert(keyed(kv, i + 1) == insert_key(keyed(kv, i as int), k@, i as int));
        match find_key(&out, &k) {
            Some(j) => {
                let ghost kk = k@;
                out.set(j, (k, i));
                assert(pair_views(out@) =~= pair_views(before).update(j as int, (kk, i as int)));
            },
            None => {
                out.push((k, i));
                assert(pair_views(out@) =~= pair_views(before).push((k@, i as int)));
            },
        }
        i = i + 1;
    }
    out
}

impl ExifBlock {
    /// The keys of the last parse's nodes, in scan order.
    pub fn node_keys(&self) -> (r: Vec<String>)
        ensures
            string_views(r@) == self.result().nodes.map_values(|n: NodeView| node_key(n)),
    {
        let nodes = self.nodes();
        let ghost nv = node_views(nodes@);
        let mut out: Vec<String> = Vec::new();
        let mut i: usize = 0;
        while i < nodes.len()
            invariant
                i <= nodes@.len(),
                nv == node_views(nodes@),
                string_views(out@) == nv.subrange(0, i as int).map_values(
                    |n: NodeView| node_key(n),
                ),
            decreases nodes@.len() - i,
        {
            let ghost before = out@;
            let k = match &nodes[i] {
                ExifNode::Tag(e) => e.name.clone(),
                ExifNode::Gps(_) => String::from_str("GPSInfo"),
            };
            assert(nv[i as int] == nodes@[i as int]@);
            assert(node_key(nv[i as int]) == k@);
            let ghost kk = k@;
            out.push(k);
            assert(string_views(out@) =~= string_views(before).push(kk));
            assert(nv.subrange(0, i + 1).map_values(|n: NodeView| node_key(n)) =~= nv.subrange(
                0,
                i as int,
            ).map_values(|n: NodeView| node_key(n)).push(kk));
            i = i + 1;
        }
        assert(nv.subrange(0, nv.len() as int) =~= nv);
        out
    }

    /// The last parse's result as an insertion-ordered map: each name once,
    /// where it first appears, with the index in `nodes()` of its last value;
    /// the GPS directory under `GPSInfo`.
    pub fn keyed_nodes(&self) -> (r: Vec<(String, usize)>)
        ensures
            pair_views(r@) == keyed(
                self.result().nodes.map_values(|n: NodeView| node_key(n)),
                self.result().nodes.len() as int,
            ),
            forall|a: int, b: int| 0 <= a < b < r@.len() ==> r@[a].0@ != r@[b].0@,
    {
        let keys = self.node_keys();
        assert(string_views(keys@).len() == keys@.len());
        key_order(&keys)
    }
}

/// The names of `entries`, in order.
pub fn entry_names(entries: &Vec<ExifEntry>) -> (r: Vec<String>)
    ensures
        r@.len() == entries@.len(),
        forall|i: int| 0 <= i < r@.len() ==> #[trigger] r@[i]@ == entries@[i].name@,
{
    let mut out: Vec<String> = Vec::new();
    let mut i: usize = 0;
    while i < entries.len()
        invariant
            i <= entries@.len(),
            out@.len() == i,
            forall|j: int| 0 <= j < i ==> #[trigger] out@[j]@ == entries@[j].name@,
        decreases entries@.len() - i,
    {
        out.push(entries[i].name.clone());
        i = i + 1;
    }
    out
}

} // verus!
