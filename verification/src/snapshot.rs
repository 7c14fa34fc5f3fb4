//! Snapshot-based change detection.
//!
//! A snapshot maps each watched file path to its last-modified timestamp.
//! It is rebuilt in full on each poll from the entries the file-system walk
//! hands over, honouring the ignore set: a file is recorded exactly when no
//! component of its path is ignored. Diffing the new snapshot against the
//! previous one finds the first entry whose timestamp changed — a path
//! absent from the previous snapshot counts as changed, its first proof
//! being new-file creation — and classifies it by whether the path falls
//! under the secondary-build subtree.

use vstd::prelude::*;
use vstd::string::*;

verus! {

/// One file seen by the file-system walk: its path components below the
/// watched root, in order, and its last-modified timestamp.
pub struct FileEntry {
    /// The path components below the watched root, in order.
    pub components: Vec<String>,
    /// The file's last-modified timestamp, monotonic-comparable.
    pub modified_ts: u64,
}

impl FileEntry {
    /// The texts of the path components, in order.
    pub open spec fn component_views(self) -> Seq<Seq<char>> {
        self.components@.map_values(|c: String| c@)
    }
}

/// The joined path of an entry: the watched root `"."` followed by a `/`
/// and each component, in order.
pub open spec fn spec_path_of(components: Seq<Seq<char>>) -> Seq<char>
    decreases components.len(),
{
    if components.len() == 0 {
        "."@
    } else {
        spec_path_of(components.drop_last()) + "/"@ + components.last()
    }
}

/// Join path components below the watched root into the full path.
pub fn path_of(components: &Vec<String>) -> (r: String)
    ensures
        r@ == spec_path_of(components@.map_values(|c: String| c@)),
{
    let ghost views = components@.map_values(|c: String| c@);
    let mut r = String::from_str(".");
    let mut i: usize = 0;
    proof {
        assert(views.take(0) =~= Seq::<Seq<char>>::empty());
    }
    while i < components.len()
        invariant
            views == components@.map_values(|c: String| c@),
            i <= components.len(),
            r@ == spec_path_of(views.take(i as int)),
        decreases components.len() - i,
    {
        let ghost r0 = r@;
        r.append("/");
        r.append(components[i].as_str());
        proof {
            assert(views.take(i + 1).drop_last() =~= views.take(i as int));
            assert(views.take(i + 1).last() == views[i as int]);
            assert(r@ =~= spec_path_of(views.take(i + 1)));
        }
        i = i + 1;
    }
    proof {
        assert(views.take(components@.len() as int) =~= views);
    }
    r
}

/// Character-for-character string equality.
pub fn str_eq(a: &str, b: &str) -> (r: bool)
    ensures
        r == (a@ == b@),
{
    let n = a.unicode_len();
    if n != b.unicode_len() {
        proof {
            assert(a@ != b@) by {
                if a@ == b@ {
                    assert(a@.len() == b@.len());
                }
            }
        }
        return false;
    }
    let mut i: usize = 0;
    while i < n
        invariant
            n == a@.len(),
            n == b@.len(),
            i <= n,
            forall|k: int| 0 <= k < i ==> a@[k] == b@[k],
        decreases n - i,
    {
        if a.get_char(i) != b.get_char(i) {
            return false;
        }
        i = i + 1;
    }
    proof {
        assert(a@ =~= b@);
    }
    true
}

/// Whether some component of a path is in the ignore set.
pub open spec fn spec_entry_ignored(components: Seq<Seq<char>>, ignore: Seq<Seq<char>>) -> bool {
    exists|i: int| 0 <= i < components.len() && ignore.contains(components[i])
}

/// Whether a name is in the ignore list.
pub fn name_in_list(name: &String, list: &Vec<String>) -> (r: bool)
    ensures
        r == list@.map_values(|c: String| c@).contains(name@),
{
    let ghost views = list@.map_values(|c: String| c@);
    let mut i: usize = 0;
    while i < list.len()
        invariant
            views == list@.map_values(|c: String| c@),
            i <= list.len(),
            forall|k: int| 0 <= k < i ==> views[k] != name@,
        decreases list.len() - i,
    {
        if str_eq(list[i].as_str(), name.as_str()) {
            proof {
                assert(views[i as int] == name@);
                assert(views.contains(name@));
            }
            return true;
        }
        i = i + 1;
    }
    false
}

/// Whether no component of the entry's path is ignored.
fn entry_included(entry: &FileEntry, ignore: &Vec<String>) -> (r: bool)
    ensures
        r == !spec_entry_ignored(
            entry.component_views(),
            ignore@.map_values(|c: String| c@),
        ),
{
    let ghost comps = entry.component_views();
    let mut i: usize = 0;
    while i < entry.components.len()
        invariant
            comps == entry.component_views(),
            i <= entry.components.len(),
            forall|k: int|
                0 <= k < i ==> !ignore@.map_values(|c: String| c@).contains(comps[k]),
        decreases entry.components.len() - i,
    {
        if name_in_list(&entry.components[i], ignore) {
            proof {
                assert(ignore@.map_values(|c: String| c@).contains(comps[i as int]));
                assert(spec_entry_ignored(comps, ignore@.map_values(|c: String| c@)));
            }
            return false;
        }
        i = i + 1;
    }
    proof {
        lemma_no_component_ignored(comps, ignore@.map_values(|c: String| c@));
    }
    true
}

/// When no component is in the ignore set, the entry is not ignored.
proof fn lemma_no_component_ignored(components: Seq<Seq<char>>, ignore: Seq<Seq<char>>)
    requires
        forall|k: int| 0 <= k < components.len() ==> !ignore.contains(components[k]),
    ensures
        !spec_entry_ignored(components, ignore),
{
}

/// The last-known timestamp of a path in a snapshot's entry sequence.
pub open spec fn spec_get(m: Seq<(Seq<char>, u64)>, path: Seq<char>) -> Option<u64>
    decreases m.len(),
{
    if m.len() == 0 {
        None
    } else if m.first().0 == path {
        Some(m.first().1)
    } else {
        spec_get(m.drop_first(), path)
    }
}

/// Recording a path in a snapshot's entry sequence: the first entry with
/// that path is replaced in place; absent any, the entry is appended.
pub open spec fn spec_insert(m: Seq<(Seq<char>, u64)>, path: Seq<char>, ts: u64) -> Seq<
    (Seq<char>, u64),
>
    decreases m.len(),
{
    if m.len() == 0 {
        seq![(path, ts)]
    } else if m.first().0 == path {
        seq![(path, ts)] + m.drop_first()
    } else {
        seq![m.first()] + spec_insert(m.drop_first(), path, ts)
    }
}

/// The complete target map taken at one poll tick: each watched path with
/// its last-modified timestamp, in insertion order, paths unique.
pub struct Snapshot {
    /// The recorded paths and their timestamps, in insertion order.
    pub entries: Vec<(String, u64)>,
}

impl Snapshot {
    /// The recorded paths and timestamps as the specifications see them.
    pub open spec fn model(self) -> Seq<(Seq<char>, u64)> {
        self.entries@.map_values(|e: (String, u64)| (e.0@, e.1))
    }

    /// Every recorded path occurs once.
    pub open spec fn wf(self) -> bool {
        forall|i: int, j: int|
            0 <= i < j < self.model().len() ==> (#[trigger] self.model()[i]).0 != (
            #[trigger] self.model()[j]).0
    }

    /// An empty snapshot.
    pub fn new() -> (r: Snapshot)
        ensures
            r.model() == Seq::<(Seq<char>, u64)>::empty(),
            r.wf(),
    {
        let r = Snapshot { entries: Vec::new() };
        proof {
            assert(r.model() =~= Seq::<(Seq<char>, u64)>::empty());
        }
        r
    }

    /// The number of recorded paths.
    pub fn len(&self) -> (r: usize)
        ensures
            r == self.model().len(),
    {
        self.entries.len()
    }

    /// The recorded timestamp of a path, if any.
    pub fn get(&self, path: &String) -> (r: Option<u64>)
        ensures
            r == spec_get(self.model(), path@),
    {
        let m = self.entries.len();
        let mut i: usize = 0;
        proof {
            assert(self.model().skip(0) =~= self.model());
        }
        while i < m
            invariant
                m == self.entries.len(),
                i <= m,
                spec_get(self.model().skip(i as int), path@) == spec_get(self.model(), path@),
            decreases m - i,
        {
            let ghost mseq = self.model();
            proof {
                assert(mseq.skip(i as int).first() == mseq[i as int]);
                assert(mseq.skip(i as int).drop_first() =~= mseq.skip(i + 1));
            }
            if str_eq(self.entries[i].0.as_str(), path.as_str()) {
                return Some(self.entries[i].1);
            }
            i = i + 1;
        }
        proof {
            assert(self.model().skip(m as int) =~= Seq::<(Seq<char>, u64)>::empty());
        }
        None
    }

    /// Record a path's timestamp, replacing any entry already recorded for
    /// that path.
    pub fn insert(&mut self, path: String, ts: u64)
        requires
            old(self).wf(),
        ensures
            final(self).model() == spec_insert(old(self).model(), path@, ts),
            final(self).wf(),
    {
        let ghost m0 = self.model();
        let n = self.entries.len();
        let mut i: usize = 0;
        proof {
            assert(forall|p: int, q: int|
                0 <= p < q < m0.len() ==> (#[trigger] m0[p]).0 != (#[trigger] m0[q]).0);
        }
        while i < n
            invariant
                n == self.entries.len(),
                m0 == self.model(),
                m0 == old(self).model(),
                i <= n,
                forall|k: int| 0 <= k < i ==> (#[trigger] m0[k]).0 != path@,
                forall|p: int, q: int|
                    0 <= p < q < m0.len() ==> (#[trigger] m0[p]).0 != (#[trigger] m0[q]).0,
            decreases n - i,
        {
            if str_eq(self.entries[i].0.as_str(), path.as_str()) {
                let ghost idx = i as int;
                proof {
                    assert(m0[idx].0 == path@);
                }
                self.entries.remove(i);
                self.entries.insert(i, (path, ts));
                proof {
                    assert(self.model() =~= m0.update(idx, (path@, ts)));
                    lemma_spec_insert_found(m0, path@, ts, idx);
                    let mnew = self.model();
                    assert forall|p: int, q: int| 0 <= p < q < mnew.len() implies (
                    #[trigger] mnew[p]).0 != (#[trigger] mnew[q]).0 by {
                        assert(m0[p].0 != m0[q].0);
                        assert(mnew[p].0 == m0[p].0);
                        assert(mnew[q].0 == m0[q].0);
                    }
                }
                return ;
            }
            i = i + 1;
        }
        self.entries.push((path, ts));
        proof {
            assert(self.model() =~= m0.push((path@, ts)));
            lemma_spec_insert_absent(m0, path@, ts);
            let mnew = self.model();
            assert forall|p: int, q: int| 0 <= p < q < mnew.len() implies (
            #[trigger] mnew[p]).0 != (#[trigger] mnew[q]).0 by {
                if q < m0.len() {
                    assert(old(self).model()[p].0 != old(self).model()[q].0);
                } else {
                    assert(m0[p].0 != path@);
                }
            }
        }
    }
}

/// Replacing the first (and only) entry recorded for a path is an in-place
/// update.
proof fn lemma_spec_insert_found(m: Seq<(Seq<char>, u64)>, path: Seq<char>, ts: u64, i: int)
    requires
        0 <= i < m.len(),
        m[i].0 == path,
        forall|k: int| 0 <= k < i ==> (#[trigger] m[k]).0 != path,
    ensures
        spec_insert(m, path, ts) =~= m.update(i, (path, ts)),
    decreases i,
{
    if i == 0 {
        assert(m.first().0 == path);
        assert(seq![(path, ts)] + m.drop_first() =~= m.update(0, (path, ts)));
    } else {
        assert(m[0].0 != path);
        assert(forall|k: int|
            0 <= k < i - 1 ==> (#[trigger] m.drop_first()[k]).0 == m[k + 1].0);
        lemma_spec_insert_found(m.drop_first(), path, ts, i - 1);
        assert(seq![m.first()] + m.drop_first().update(i - 1, (path, ts)) =~= m.update(
            i,
            (path, ts),
        ));
    }
}

/// Recording a path no entry holds appends it.
proof fn lemma_spec_insert_absent(m: Seq<(Seq<char>, u64)>, path: Seq<char>, ts: u64)
    requires
        forall|k: int| 0 <= k < m.len() ==> (#[trigger] m[k]).0 != path,
    ensures
        spec_insert(m, path, ts) =~= m.push((path, ts)),
    decreases m.len(),
{
    if m.len() > 0 {
        lemma_spec_insert_absent(m.drop_first(), path, ts);
        assert(seq![m.first()] + m.drop_first().push((path, ts)) =~= m.push((path, ts)));
    }
}

/// The snapshot built from the walked entries: each entry none of whose
/// path components is ignored is recorded under its joined path, in order.
pub open spec fn spec_build(
    files: Seq<(Seq<Seq<char>>, u64)>,
    ignore: Seq<Seq<char>>,
) -> Seq<(Seq<char>, u64)>
    decreases files.len(),
{
    if files.len() == 0 {
        Seq::empty()
    } else {
        let prev = spec_build(files.drop_last(), ignore);
        let e = files.last();
        if spec_entry_ignored(e.0, ignore) {
            prev
        } else {
            spec_insert(prev, spec_path_of(e.0), e.1)
        }
    }
}

/// The components and timestamp of each walked entry.
pub open spec fn file_views(files: Seq<FileEntry>) -> Seq<(Seq<Seq<char>>, u64)> {
    files.map_values(|f: FileEntry| (f.component_views(), f.modified_ts))
}

/// Build the snapshot of the walked entries, honouring the ignore set: a
/// file is recorded under its joined path exactly when no component of its
/// path is in the ignore set.
pub fn build_snapshot(files: &Vec<FileEntry>, ignore: &Vec<String>) -> (r: Snapshot)
    ensures
        r.model() == spec_build(file_views(files@), ignore@.map_values(|c: String| c@)),
        r.wf(),
{
    let ghost fv = file_views(files@);
    let ghost ig = ignore@.map_values(|c: String| c@);
    let mut r = Snapshot::new();
    let mut i: usize = 0;
    proof {
        assert(fv.take(0) =~= Seq::<(Seq<Seq<char>>, u64)>::empty());
    }
    while i < files.len()
        invariant
            fv == file_views(files@),
            ig == ignore@.map_values(|c: String| c@),
            i <= files.len(),
            r.model() == spec_build(fv.take(i as int), ig),
            r.wf(),
        decreases files.len() - i,
    {
        let entry = &files[i];
        proof {
            assert(fv[i as int] == (entry.component_views(), entry.modified_ts));
            assert(fv.take(i + 1).drop_last() =~= fv.take(i as int));
            assert(fv.take(i + 1).last() == fv[i as int]);
        }
        if entry_included(entry, ignore) {
            let path = path_of(&entry.components);
            r.insert(path, entry.modified_ts);
        }
        i = i + 1;
    }
    proof {
        assert(fv.take(files@.len() as int) =~= fv);
    }
    r
}

/// Whether a snapshot entry counts as changed against the previous
/// snapshot: its path is absent there, or recorded with another timestamp.
pub open spec fn spec_changed(prev: Seq<(Seq<char>, u64)>, entry: (Seq<char>, u64)) -> bool {
    spec_get(prev, entry.0) != Some(entry.1)
}

/// The first entry of the new snapshot that changed against the previous
/// one, in the new snapshot's order, if any.
pub open spec fn spec_first_change(
    prev: Seq<(Seq<char>, u64)>,
    entries: Seq<(Seq<char>, u64)>,
) -> Option<(Seq<char>, u64)>
    decreases entries.len(),
{
    if entries.len() == 0 {
        None
    } else if spec_changed(prev, entries.first()) {
        Some(entries.first())
    } else {
        spec_first_change(prev, entries.drop_first())
    }
}

/// Looking a recorded path up finds its own timestamp.
proof fn lemma_get_at_index(m: Seq<(Seq<char>, u64)>, i: int)
    requires
        0 <= i < m.len(),
        forall|p: int, q: int|
            0 <= p < q < m.len() ==> (#[trigger] m[p]).0 != (#[trigger] m[q]).0,
    ensures
        spec_get(m, m[i].0) == Some(m[i].1),
    decreases i,
{
    if i > 0 {
        assert(m[0].0 != m[i].0);
        let d = m.drop_first();
        assert(forall|p: int, q: int|
            0 <= p < q < d.len() ==> (#[trigger] d[p]).0 != (#[trigger] d[q]).0) by {
            assert(forall|p: int, q: int|
                0 <= p < q < d.len() ==> d[p] == m[p + 1] && d[q] == m[q + 1]);
        }
        lemma_get_at_index(d, i - 1);
    }
}

/// When every entry of the new snapshot is recorded unchanged in the
/// previous one, no first change exists.
proof fn lemma_first_change_none(prev: Seq<(Seq<char>, u64)>, entries: Seq<(Seq<char>, u64)>)
    requires
        forall|i: int|
            0 <= i < entries.len() ==> spec_get(prev, (#[trigger] entries[i]).0) == Some(
                entries[i].1,
            ),
    ensures
        spec_first_change(prev, entries) is None,
    decreases entries.len(),
{
    if entries.len() > 0 {
        assert(entries[0] == entries.first());
        lemma_first_change_none(prev, entries.drop_first());
    }
}

/// Diffing two snapshots of an unchanged tree finds no changed entry, and
/// so triggers no build.
pub proof fn lemma_unchanged_tree_no_build(prev: Snapshot, curr: Snapshot)
    requires
        prev.wf(),
        prev.model() == curr.model(),
    ensures
        spec_first_change(prev.model(), curr.model()) is None,
{
    let m = prev.model();
    assert forall|i: int| 0 <= i < m.len() implies spec_get(m, (#[trigger] m[i]).0) == Some(
        m[i].1,
    ) by {
        lemma_get_at_index(m, i);
    }
    lemma_first_change_none(m, m);
}

/// Recording one path leaves every other path's lookup unchanged.
proof fn lemma_get_insert_other(
    m: Seq<(Seq<char>, u64)>,
    path: Seq<char>,
    ts: u64,
    p: Seq<char>,
)
    requires
        path != p,
    ensures
        spec_get(spec_insert(m, path, ts), p) == spec_get(m, p),
    decreases m.len(),
{
    if m.len() == 0 {
        let r = spec_insert(m, path, ts);
        assert(r == seq![(path, ts)]);
        assert(r.len() == 1);
        assert(r.first() == (path, ts));
        assert(r.drop_first() =~= Seq::<(Seq<char>, u64)>::empty());
        assert(spec_get(r.drop_first(), p) is None);
        assert(spec_get(r, p) is None);
    } else if m.first().0 == path {
        let r = spec_insert(m, path, ts);
        assert(r == seq![(path, ts)] + m.drop_first());
        assert(r.len() == 1 + m.drop_first().len());
        assert(r.first() == (path, ts));
        assert(r.drop_first() =~= m.drop_first());
        assert(spec_get(r, p) == spec_get(m.drop_first(), p));
        assert(spec_get(m, p) == spec_get(m.drop_first(), p));
    } else {
        lemma_get_insert_other(m.drop_first(), path, ts, p);
        let r = spec_insert(m, path, ts);
        assert(r == seq![m.first()] + spec_insert(m.drop_first(), path, ts));
        assert(r.len() == 1 + spec_insert(m.drop_first(), path, ts).len());
        assert(r.first() == m.first());
        assert(r.drop_first() =~= spec_insert(m.drop_first(), path, ts));
        if m.first().0 == p {
            assert(spec_get(r, p) == Some(m.first().1));
            assert(spec_get(m, p) == Some(m.first().1));
        } else {
            assert(spec_get(r, p) == spec_get(spec_insert(m.drop_first(), path, ts), p));
            assert(spec_get(m, p) == spec_get(m.drop_first(), p));
        }
    }
}

/// A path every walked producer of which is ignored is never recorded in
/// the built snapshot, whatever is on disk: ignored files cannot put their
/// path into the target map.
pub proof fn lemma_ignored_path_never_snapshotted(
    files: Seq<(Seq<Seq<char>>, u64)>,
    ignore: Seq<Seq<char>>,
    p: Seq<char>,
)
    requires
        forall|i: int|
            0 <= i < files.len() ==> spec_entry_ignored((#[trigger] files[i]).0, ignore)
                || spec_path_of(files[i].0) != p,
    ensures
        spec_get(spec_build(files, ignore), p) is None,
    decreases files.len(),
{
    if files.len() > 0 {
        lemma_ignored_path_never_snapshotted(files.drop_last(), ignore, p);
        let e = files.last();
        assert(e == files[files.len() - 1]);
        if !spec_entry_ignored(e.0, ignore) {
            lemma_get_insert_other(spec_build(files.drop_last(), ignore), spec_path_of(e.0), e.1, p);
        }
    }
}

} // verus!
