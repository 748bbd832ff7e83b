//! The manifest: the source files the project tracks and the assets found in them.
use crate::assets::{AssetDescription, AssetSourceFile, InitialAssetDescription};
use crate::paths::{paths_equal, same_path};
use crate::sorted_ids::{sorted_ids, strictly_increasing};
use std::collections::BTreeSet;
use vstd::prelude::*;

verus! {

broadcast use {vstd::std_specs::btree::group_btree_axioms, vstd::laws_cmp::group_laws_cmp};

pub struct Manifest {
    pub verison: u8,
    pub files: Vec<AssetSourceFile>,
    pub assets: Vec<AssetDescription>,
}

/// The elements of `s` from position `from` on whose positions are not in `ids`, in order.
pub open spec fn kept_from<T>(s: Seq<T>, ids: Set<usize>, from: int) -> Seq<T>
    decreases s.len() - from,
{
    if from < 0 || from >= s.len() {
        Seq::empty()
    } else if ids.contains(from as usize) {
        kept_from(s, ids, from + 1)
    } else {
        seq![s[from]] + kept_from(s, ids, from + 1)
    }
}

/// The elements of `s` whose positions are not in `ids`, in order.
pub open spec fn without_positions<T>(s: Seq<T>, ids: Set<usize>) -> Seq<T> {
    kept_from(s, ids, 0)
}

/// `i` is the position of the first tracked file whose path equals `path`
/// as a path.
pub open spec fn is_first_file_with_path(files: Seq<AssetSourceFile>, path: Seq<char>, i: int) -> bool {
    &&& 0 <= i < files.len()
    &&& same_path(files[i].filepath@, path)
    &&& forall|j: int| 0 <= j < i ==> !same_path(#[trigger] files[j].filepath@, path)
}

/// No tracked file's path equals `path` as a path.
pub open spec fn no_file_with_path(files: Seq<AssetSourceFile>, path: Seq<char>) -> bool {
    forall|j: int| 0 <= j < files.len() ==> !same_path(#[trigger] files[j].filepath@, path)
}

/// `i` is the position of the first asset named `name`.
pub open spec fn is_first_asset_named(assets: Seq<AssetDescription>, name: Seq<char>, i: int) -> bool {
    &&& 0 <= i < assets.len()
    &&& assets[i].asset_name@ == name
    &&& forall|j: int| 0 <= j < i ==> #[trigger] assets[j].asset_name@ != name
}

/// `i` is the position of the first tracked file that records the asset
/// position `asset`.
pub open spec fn is_first_file_holding(files: Seq<AssetSourceFile>, asset: usize, i: int) -> bool {
    &&& 0 <= i < files.len()
    &&& files[i].asset_ids@.contains(asset)
    &&& forall|j: int| 0 <= j < i ==> !(#[trigger] files[j]).asset_ids@.contains(asset)
}

/// No asset is named `name`.
pub open spec fn no_asset_named(assets: Seq<AssetDescription>, name: Seq<char>) -> bool {
    forall|j: int| 0 <= j < assets.len() ==> #[trigger] assets[j].asset_name@ != name
}

/// The asset a handler's report becomes when it is added at position `id`
/// for the file at `path`: it is named after its subresource.
pub open spec fn describes(
    d: AssetDescription,
    path: Seq<char>,
    id: int,
    initial: InitialAssetDescription,
) -> bool {
    &&& d.asset_id == id
    &&& d.asset_name@ == initial.subresource@
    &&& d.asset_type@ == initial.kind@
    &&& d.source_file_path@ == path
    &&& d.source_subresource@ == initial.subresource@
}

/// The identifiers `from .. from + count`.
pub open spec fn id_range(from: int, count: int) -> Set<usize> {
    Set::new(|i: usize| from <= i < from + count)
}

/// `after` is the manifest with the files `files`, the assets `assets` and
/// the version `verison`, with the file at `path` tracked: the assets that
/// `extracted` reports are appended to the asset list, described as by
/// `describes`, and the new last file records their positions.
pub open spec fn adds_to(
    files: Seq<AssetSourceFile>,
    assets: Seq<AssetDescription>,
    verison: u8,
    after: Manifest,
    path: Seq<char>,
    extracted: Seq<InitialAssetDescription>,
) -> bool {
    &&& after.verison == verison
    &&& after.files@.len() == files.len() + 1
    &&& forall|i: int| 0 <= i < files.len() ==> after.files@[i] == files[i]
    &&& after.files@.last().filepath@ == path
    &&& after.files@.last().asset_ids@ == id_range(assets.len() as int, extracted.len() as int)
    &&& after.assets@.len() == assets.len() + extracted.len()
    &&& forall|i: int| 0 <= i < assets.len() ==> after.assets@[i] == assets[i]
    &&& forall|k: int|
        0 <= k < extracted.len() ==> describes(
            #[trigger] after.assets@[assets.len() + k],
            path,
            assets.len() + k,
            extracted[k],
        )
}

/// `after` is `before` with the file at `path` tracked, as by `adds_to`.
pub open spec fn adds_source_file(
    before: Manifest,
    after: Manifest,
    path: Seq<char>,
    extracted: Seq<InitialAssetDescription>,
) -> bool {
    adds_to(before.files@, before.assets@, before.verison, after, path, extracted)
}

/// `after` is `before` without the file at `idx`: the assets at the positions
/// it records leave the asset list (the others keep their order), and the
/// last file takes its place in the file list.
pub open spec fn removes_source_file(before: Manifest, after: Manifest, idx: int) -> bool {
    &&& after.verison == before.verison
    &&& after.assets@ == without_positions(before.assets@, before.files@[idx].asset_ids@)
    &&& after.files@ == before.files@.update(idx, before.files@.last()).drop_last()
}

proof fn lemma_kept_from_step<T>(s: Seq<T>, ids: Set<usize>, p: int)
    requires
        0 <= p < s.len(),
    ensures
        ids.contains(p as usize) ==> kept_from(s, ids, p) == kept_from(s, ids, p + 1),
        !ids.contains(p as usize) ==> kept_from(s, ids, p) == seq![s[p]] + kept_from(
            s,
            ids,
            p + 1,
        ),
{
}

impl Manifest {
    pub fn new() -> (r: Self)
        ensures
            r.verison == 0,
            r.files@ == Seq::<AssetSourceFile>::empty(),
            r.assets@ == Seq::<AssetDescription>::empty(),
    {
        Self { verison: 0, files: Vec::new(), assets: Vec::new() }
    }

    /// Position of the first tracked file whose path equals `path` as a path.
    pub fn find_file(&self, path: &str) -> (r: Option<usize>)
        ensures
            r matches Some(i) ==> is_first_file_with_path(self.files@, path@, i as int),
            r is None ==> no_file_with_path(self.files@, path@),
    {
        let mut i: usize = 0;
        while i < self.files.len()
            invariant
                i <= self.files.len(),
                forall|j: int| 0 <= j < i ==> !same_path(#[trigger] self.files@[j].filepath@, path@),
            decreases self.files.len() - i,
        {
            if paths_equal(self.files[i].filepath.as_str(), path) {
                return Some(i);
            }
            i = i + 1;
        }
        None
    }

    /// Position of the first asset named `name`.
    pub fn find_asset(&self, name: &str) -> (r: Option<usize>)
        ensures
            r matches Some(i) ==> is_first_asset_named(self.assets@, name@, i as int),
            r is None ==> no_asset_named(self.assets@, name@),
    {
        let target = name.to_string();
        let mut i: usize = 0;
        while i < self.assets.len()
            invariant
                i <= self.assets.len(),
                target@ == name@,
                forall|j: int| 0 <= j < i ==> #[trigger] self.assets@[j].asset_name@ != name@,
            decreases self.assets.len() - i,
        {
            if self.assets[i].asset_name == target {
                return Some(i);
            }
            i = i + 1;
        }
        None
    }

    /// Starts tracking the source file at `path`, with the assets a handler
    /// found in it. The new assets are appended to the asset list, and the
    /// file records their positions there.
    pub fn add_source_file(&mut self, path: &str, extracted: &Vec<InitialAssetDescription>)
        requires
            old(self).assets.len() + extracted.len() <= usize::MAX,
        ensures
            adds_source_file(*old(self), *final(self), path@, extracted@),
    {
        let start = self.assets.len();
        let ghost old_assets = self.assets@;
        let ghost old_files = self.files@;
        let ghost version = self.verison;
        let mut ids: BTreeSet<usize> = BTreeSet::new();
        let mut k: usize = 0;
        while k < extracted.len()
            invariant
                start == old_assets.len(),
                self.files@ == old_files,
                self.verison == version,
                start + extracted.len() <= usize::MAX,
                k <= extracted.len(),
                ids@ == id_range(start as int, k as int),
                self.assets@.len() == start + k,
                forall|i: int| 0 <= i < start ==> self.assets@[i] == old_assets[i],
                forall|j: int| 0 <= j < k ==> describes(
                    #[trigger] self.assets@[start + j],
                    path@,
                    start + j,
                    extracted@[j],
                ),
            decreases extracted.len() - k,
        {
            let id = start + k;
            ids.insert(id);
            let item = &extracted[k];
            self.assets.push(
                AssetDescription {
                    asset_id: id as u64,
                    asset_name: item.subresource.clone(),
                    asset_type: item.kind.clone(),
                    source_file_path: path.to_string(),
                    source_subresource: item.subresource.clone(),
                },
            );
            k = k + 1;
            assert(ids@ =~= id_range(start as int, k as int));
        }
        self.files.push(AssetSourceFile { filepath: path.to_string(), asset_ids: ids });
    }

    /// Position of the first tracked file that records the asset position `asset`.
    pub fn file_of_asset(&self, asset: usize) -> (r: Option<usize>)
        ensures
            r matches Some(i) ==> is_first_file_holding(self.files@, asset, i as int),
            r is None ==> forall|j: int|
                0 <= j < self.files@.len() ==> !(#[trigger] self.files@[j]).asset_ids@.contains(asset),
    {
        let mut i: usize = 0;
        while i < self.files.len()
            invariant
                i <= self.files.len(),
                forall|j: int| 0 <= j < i ==> !(#[trigger] self.files@[j]).asset_ids@.contains(asset),
            decreases self.files.len() - i,
        {
            if self.files[i].asset_ids.contains(&asset) {
                return Some(i);
            }
            i = i + 1;
        }
        None
    }

    /// The asset positions a cook covers, smallest first: every asset, or,
    /// for the file at `file`, the positions it records that lie inside the
    /// asset list.
    pub fn assets_to_cook(&self, file: Option<usize>) -> (r: Vec<usize>)
        requires
            file matches Some(i) ==> i < self.files.len(),
        ensures
            strictly_increasing(r@),
            file is None ==> r@ == Seq::new(self.assets@.len(), |k: int| k as usize),
            (file matches Some(i) ==> forall|id: usize|
                #[trigger] r@.contains(id) <==> (self.files@[i as int].asset_ids@.contains(id) && id < self.assets@.len())),
    {
        let mut r: Vec<usize> = Vec::new();
        match file {
            None => {
                let mut k: usize = 0;
                while k < self.assets.len()
                    invariant
                        k <= self.assets@.len(),
                        r@ == Seq::new(k as nat, |j: int| j as usize),
                    decreases self.assets@.len() - k,
                {
                    r.push(k);
                    k = k + 1;
                    assert(r@ =~= Seq::new(k as nat, |j: int| j as usize));
                }
                r
            },
            Some(idx) => {
                let sorted = sorted_ids(&self.files[idx].asset_ids);
                let ghost ids = self.files@[idx as int].asset_ids@;
                let mut k: usize = 0;
                while k < sorted.len()
                    invariant
                        k <= sorted@.len(),
                        idx < self.files@.len(),
                        ids == self.files@[idx as int].asset_ids@,
                        sorted@.to_set() == ids,
                        strictly_increasing(sorted@),
                        strictly_increasing(r@),
                        forall|m: int| 0 <= m < r@.len() ==> exists|q: int| 0 <= q < k && sorted@[q] == #[trigger] r@[m],
                        forall|id: usize|
                            #[trigger] r@.contains(id) <==> (exists|q: int| 0 <= q < k && sorted@[q] == id)
                                && id < self.assets@.len(),
                    decreases sorted@.len() - k,
                {
                    let id = sorted[k];
                    if id < self.assets.len() {
                        proof {
                            assert forall|m: int| 0 <= m < r@.len() implies r@[m] < id by {
                                let q = choose|q: int| 0 <= q < k && sorted@[q] == r@[m];
                            }
                        }
                        let ghost before = r@;
                        r.push(id);
                        proof {
                            assert forall|x: usize| #[trigger] r@.contains(x) <==> (exists|q: int|
                                0 <= q < k + 1 && sorted@[q] == x) && x < self.assets@.len() by {
                                if r@.contains(x) {
                                    let m = choose|m: int| 0 <= m < r@.len() && r@[m] == x;
                                    if m < before.len() {
                                        assert(before.contains(x));
                                    }
                                }
                                if (exists|q: int| 0 <= q < k + 1 && sorted@[q] == x) && x < self.assets@.len() {
                                    let q = choose|q: int| 0 <= q < k + 1 && sorted@[q] == x;
                                    if q < k {
                                        assert(before.contains(x));
                                        let m = choose|m: int| 0 <= m < before.len() && before[m] == x;
                                        assert(r@[m] == x);
                                    } else {
                                        assert(r@[before.len() as int] == x);
                                    }
                                }
                            }
                            assert forall|m: int| 0 <= m < r@.len() implies exists|q: int|
                                0 <= q < k + 1 && sorted@[q] == #[trigger] r@[m] by {
                                if m < before.len() {
                                    assert(before[m] == r@[m]);
                                } else {
                                    assert(sorted@[k as int] == r@[m]);
                                }
                            }
                        }
                    } else {
                        proof {
                            assert forall|x: usize| #[trigger] r@.contains(x) <==> (exists|q: int|
                                0 <= q < k + 1 && sorted@[q] == x) && x < self.assets@.len() by {
                                if (exists|q: int| 0 <= q < k + 1 && sorted@[q] == x) && x < self.assets@.len() {
                                    let q = choose|q: int| 0 <= q < k + 1 && sorted@[q] == x;
                                    assert(q != k);
                                }
                            }
                        }
                    }
                    k = k + 1;
                }
                proof {
                    assert forall|id: usize| #[trigger] r@.contains(id) <==> (ids.contains(id) && id < self.assets@.len()) by {
                        if ids.contains(id) {
                            assert(sorted@.to_set().contains(id));
                        }
                        if exists|q: int| 0 <= q < k && sorted@[q] == id {
                            let q = choose|q: int| 0 <= q < k && sorted@[q] == id;
                            assert(sorted@.to_set().contains(id));
                        }
                    }
                }
                r
            },
        }
    }

    /// Whether every asset position the file at `idx` records lies inside the asset list.
    pub fn asset_ids_in_range(&self, idx: usize) -> (r: bool)
        requires
            idx < self.files.len(),
        ensures
            r == (forall|id: usize| #[trigger] self.files@[idx as int].asset_ids@.contains(id) ==> id < self.assets@.len()),
    {
        let sorted = sorted_ids(&self.files[idx].asset_ids);
        let ghost ids = self.files@[idx as int].asset_ids@;
        if sorted.len() == 0 {
            assert forall|id: usize| ids.contains(id) implies id < self.assets@.len() by {
                assert(sorted@.to_set().contains(id));
            }
            true
        } else {
            let largest = sorted[sorted.len() - 1];
            if largest < self.assets.len() {
                assert forall|id: usize| ids.contains(id) implies id < self.assets@.len() by {
                    assert(sorted@.to_set().contains(id));
                    let j = choose|j: int| 0 <= j < sorted@.len() && sorted@[j] == id;
                    assert(j == sorted@.len() - 1 || sorted@[j] < sorted@[sorted@.len() - 1]);
                }
                true
            } else {
                assert(ids.contains(largest)) by {
                    assert(sorted@.to_set().contains(largest));
                }
                false
            }
        }
    }

    /// Stops tracking the file at `idx`: the assets it contributed leave the
    /// asset list (the others keep their order), and the last tracked file
    /// takes its place in the file list.
    pub fn remove_source_file_at(&mut self, idx: usize)
        requires
            idx < old(self).files.len(),
            forall|id: usize| #[trigger] old(self).files@[idx as int].asset_ids@.contains(id) ==> id < old(self).assets@.len(),
        ensures
            removes_source_file(*old(self), *final(self), idx as int),
    {
        let ghost orig = self.assets@;
        let ghost ids = self.files@[idx as int].asset_ids@;
        let ghost files = self.files@;
        let ghost version = self.verison;
        let mut p = self.assets.len();
        assert(orig.take(p as int) + kept_from(orig, ids, p as int) =~= orig);
        while p > 0
            invariant
                p <= orig.len(),
                idx < self.files.len(),
                self.files@ == files,
                self.verison == version,
                ids == files[idx as int].asset_ids@,
                self.assets@ == orig.take(p as int) + kept_from(orig, ids, p as int),
            decreases p,
        {
            p = p - 1;
            proof {
                lemma_kept_from_step(orig, ids, p as int);
            }
            if self.files[idx].asset_ids.contains(&p) {
                self.assets.remove(p);
                assert(self.assets@ =~= orig.take(p as int) + kept_from(orig, ids, p as int));
            } else {
                assert(self.assets@ =~= orig.take(p as int) + kept_from(orig, ids, p as int));
            }
        }
        assert(self.assets@ =~= without_positions(orig, ids));
        self.files.swap_remove(idx);
    }
}

proof fn lemma_kept_from_prefix<T>(s: Seq<T>, added: Seq<T>, from: int)
    requires
        0 <= from <= s.len(),
        s.len() + added.len() <= usize::MAX,
    ensures
        kept_from(s + added, id_range(s.len() as int, added.len() as int), from) == s.subrange(from, s.len() as int),
    decreases s.len() - from,
{
    let ids = id_range(s.len() as int, added.len() as int);
    let all = s + added;
    if from == s.len() {
        lemma_kept_from_all_removed(all, ids, from);
        assert(s.subrange(from, s.len() as int) =~= Seq::<T>::empty());
    } else {
        lemma_kept_from_prefix(s, added, from + 1);
        assert(!ids.contains(from as usize));
        assert(all[from] == s[from]);
        assert(s.subrange(from, s.len() as int) =~= seq![s[from]] + s.subrange(from + 1, s.len() as int));
    }
}

proof fn lemma_kept_from_all_removed<T>(all: Seq<T>, ids: Set<usize>, from: int)
    requires
        0 <= from,
        all.len() <= usize::MAX,
        forall|q: usize| from <= q < all.len() ==> #[trigger] ids.contains(q),
    ensures
        kept_from(all, ids, from) == Seq::<T>::empty(),
    decreases all.len() - from,
{
    if from < all.len() {
        assert(ids.contains(from as usize));
        lemma_kept_from_all_removed(all, ids, from + 1);
    }
}

/// Removing a source file right after adding it gives back the manifest:
/// the removal is allowed (the new file records only positions of the asset
/// list), the assets it contributed are exactly the ones removed, the other
/// assets keep their order, and the file list is as before.
pub proof fn law_remove_undoes_add(
    m0: Manifest,
    m1: Manifest,
    m2: Manifest,
    path: Seq<char>,
    extracted: Seq<InitialAssetDescription>,
)
    requires
        adds_source_file(m0, m1, path, extracted),
        removes_source_file(m1, m2, m1.files@.len() - 1),
    ensures
        forall|id: usize| #[trigger] m1.files@.last().asset_ids@.contains(id) ==> id < m1.assets@.len(),
        m2.assets@ == m0.assets@,
        m2.files@ == m0.files@,
        m2.verison == m0.verison,
{
    let len0 = m0.assets@.len();
    assert(m1.assets.len() == m1.assets@.len());
    let added = m1.assets@.subrange(len0 as int, m1.assets@.len() as int);
    assert(m1.assets@ =~= m0.assets@ + added);
    lemma_kept_from_prefix(m0.assets@, added, 0);
    assert(m0.assets@.subrange(0, len0 as int) =~= m0.assets@);
    assert(m1.files@.update(m1.files@.len() - 1, m1.files@.last()).drop_last() =~= m0.files@);
}

/// Removing a file keeps exactly the assets whose positions it does not
/// record, in their order: each kept asset comes from a position outside
/// the file's identifiers.
pub proof fn law_remove_keeps_others(assets: Seq<AssetDescription>, ids: Set<usize>, from: int)
    requires
        0 <= from,
    ensures
        forall|k: int| 0 <= k < kept_from(assets, ids, from).len() ==> exists|p: int|
            from <= p < assets.len() && !ids.contains(p as usize) && #[trigger] kept_from(assets, ids, from)[k]
                == assets[p],
    decreases assets.len() - from,
{
    if from < assets.len() {
        law_remove_keeps_others(assets, ids, from + 1);
        let rest = kept_from(assets, ids, from + 1);
        if !ids.contains(from as usize) {
            let cur = seq![assets[from]] + rest;
            assert forall|k: int| 0 <= k < cur.len() implies exists|p: int|
                from <= p < assets.len() && !ids.contains(p as usize) && #[trigger] cur[k] == assets[p] by {
                if k == 0 {
                    assert(cur[0] == assets[from]);
                } else {
                    assert(cur[k] == rest[k - 1]);
                }
            }
        }
    }
}

} // verus!
