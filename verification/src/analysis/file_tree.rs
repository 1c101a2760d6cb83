//! The files of a repository arranged for case-insensitive lookup, with
//! their directories and the likely roots of the source tree.

use vstd::prelude::*;
use crate::paths::{parent, parent_path};
use crate::text::texts_of;
use crate::text_map::{TextMap, TextSet};
use vstd::string::StringSliceAdditionalSpecFns;

verus! {

/// `s` in lower case, as `str::to_lowercase` writes it.
pub uninterp spec fn lowercase_text(s: Seq<char>) -> Seq<char>;

/// `str::to_lowercase`: the text is named `lowercase_text` of `s`; the
/// Unicode case mapping itself is left unstated.
#[verifier::external_body]
fn to_lowercase(s: &str) -> (r: String)
    ensures
        r@ == lowercase_text(s@),
{
    s.to_lowercase()
}

/// The lower-cased path of each file mapped to the file's path; a later
/// file with the same lower-cased path replaces an earlier one.
pub open spec fn normalized_of(files: Seq<String>) -> Map<Seq<char>, Seq<char>>
    decreases files.len(),
{
    if files.len() == 0 {
        Map::empty()
    } else {
        normalized_of(files.drop_last()).insert(lowercase_text(files.last()@), files.last()@)
    }
}

/// A file is found under its lower-cased path when no later file has the
/// same lower-cased path: the last file of each lower-cased path wins.
pub proof fn lemma_last_file_wins(files: Seq<String>, i: int)
    requires
        0 <= i < files.len(),
        forall|j: int| i < j < files.len() ==> lowercase_text(#[trigger] files[j]@) != lowercase_text(files[i]@),
    ensures
        normalized_of(files).contains_key(lowercase_text(files[i]@)),
        normalized_of(files)[lowercase_text(files[i]@)] == files[i]@,
    decreases files.len(),
{
    if i < files.len() - 1 {
        let init = files.drop_last();
        assert forall|j: int| i < j < init.len() implies lowercase_text(#[trigger] init[j]@) != lowercase_text(init[i]@) by {
            assert(init[j] == files[j]);
        }
        lemma_last_file_wins(init, i);
        assert(init[i] == files[i]);
        assert(lowercase_text(files.last()@) != lowercase_text(files[i]@)) by {
            assert(files.last() == files[files.len() - 1]);
        }
    }
}

/// The parent directories of the files.
pub open spec fn dirs_of(files: Seq<String>) -> Set<Seq<char>> {
    Set::new(|d: Seq<char>| exists|i: int| 0 <= i < files.len() && parent_path(#[trigger] files[i]@) == Some(d))
}

/// Whether a path names a Python package marker file.
pub open spec fn is_package_marker(p: Seq<char>) -> bool {
    p.len() >= 11 && p.subrange(p.len() - 11, p.len() as int) == "__init__.py"@
}

/// The directory holding the package whose marker file is filed under
/// the lower-cased path `k`: the grandparent of `k`.
pub open spec fn marker_root(m: Map<Seq<char>, Seq<char>>, k: Seq<char>) -> Option<Seq<char>> {
    if m.contains_key(k) && is_package_marker(m[k]) {
        match parent_path(k) {
            Some(d) => parent_path(d),
            None => None,
        }
    } else {
        None
    }
}

/// The directories that hold Python packages.
pub open spec fn package_roots(m: Map<Seq<char>, Seq<char>>) -> Set<Seq<char>> {
    Set::new(|r: Seq<char>| exists|k: Seq<char>| m.contains_key(k) && #[trigger] marker_root(m, k) == Some(r))
}

/// The roots found among the first `i` keys.
pub open spec fn roots_among(m: Map<Seq<char>, Seq<char>>, keys: Seq<Seq<char>>, i: int) -> Set<Seq<char>> {
    Set::new(|r: Seq<char>| exists|j: int| 0 <= j < i && #[trigger] marker_root(m, keys[j]) == Some(r))
}

/// The length of a path in bytes, as `str::len` reports it.
pub open spec fn byte_len(p: Seq<char>) -> usize {
    vstd::utf8::encode_utf8(p).len() as usize
}

/// Files by lower-cased path, their directories, and the likely roots.
pub struct OptimizedFileTree {
    normalized_files: TextMap,
    root_dirs: TextSet,
    dirs: TextSet,
}

impl OptimizedFileTree {
    pub closed spec fn wf(&self) -> bool {
        self.normalized_files.wf() && self.root_dirs.wf() && self.dirs.wf()
    }

    pub closed spec fn normalized_view(&self) -> Map<Seq<char>, Seq<char>> {
        self.normalized_files@
    }

    pub closed spec fn dirs_view(&self) -> Set<Seq<char>> {
        self.dirs@
    }

    pub closed spec fn root_dirs_view(&self) -> Set<Seq<char>> {
        self.root_dirs@
    }

    /// The tree of `files`: each file under its lower-cased path, the
    /// parent directory of each, and as roots the shortest directory (by
    /// bytes) and the directories that hold Python packages.
    pub fn new(files: &Vec<String>) -> (t: Self)
        ensures
            t.wf(),
            t.normalized_view() == normalized_of(files@),
            t.dirs_view() == dirs_of(files@),
            dirs_of(files@).is_empty() ==> t.root_dirs_view() == package_roots(normalized_of(files@)),
            !dirs_of(files@).is_empty() ==> exists|m: Seq<char>| {
                &&& #[trigger] dirs_of(files@).contains(m)
                &&& forall|d: Seq<char>| dirs_of(files@).contains(d) ==> byte_len(m) <= byte_len(d)
                &&& t.root_dirs_view() == package_roots(normalized_of(files@)).insert(m)
            },
    {
        let mut normalized_files = TextMap::new();
        let mut dirs = TextSet::new();
        let mut i: usize = 0;
        while i < files.len()
            invariant
                i <= files@.len(),
                normalized_files.wf(),
                dirs.wf(),
                normalized_files@ == normalized_of(files@.take(i as int)),
                dirs@ == dirs_of(files@.take(i as int)),
            decreases files@.len() - i,
        {
            let f = &files[i];
            let lower = to_lowercase(f.as_str());
            normalized_files.insert(lower, f.clone());
            let ghost before = dirs@;
            match parent(f.as_str()) {
                Some(p) => {
                    dirs.insert(p);
                },
                None => {},
            }
            proof {
                let t1 = files@.take(i + 1);
                assert(t1.drop_last() =~= files@.take(i as int));
                assert(t1.last() == *f);
                assert forall|d: Seq<char>| dirs@.contains(d) <==> dirs_of(t1).contains(d) by {
                    if dirs_of(t1).contains(d) {
                        let j = choose|j: int| 0 <= j < t1.len() && parent_path(#[trigger] t1[j]@) == Some(d);
                        if j < i {
                            assert(files@.take(i as int)[j] == t1[j]);
                        }
                    }
                    if before.contains(d) {
                        let j = choose|j: int| 0 <= j < i && parent_path(#[trigger] files@.take(i as int)[j]@) == Some(d);
                        assert(t1[j] == files@.take(i as int)[j]);
                    }
                }
                assert(dirs@ =~= dirs_of(t1));
            }
            i = i + 1;
        }
        assert(files@.take(files@.len() as int) =~= files@);
        let root_dirs = Self::compute_root_dirs(&normalized_files, &dirs);
        OptimizedFileTree { normalized_files, root_dirs, dirs }
    }

    /// The shortest directory, by bytes; the first such in insertion order.
    fn shortest_dir(dirs: &TextSet) -> (r: Option<String>)
        requires
            dirs.wf(),
        ensures
            match r {
                Some(m) => dirs@.contains(m@) && forall|d: Seq<char>| dirs@.contains(d) ==> byte_len(m@) <= byte_len(d),
                None => dirs@.is_empty(),
            },
    {
        proof {
            dirs.lemma_items();
        }
        if dirs.len() == 0 {
            assert(dirs@ =~= Set::<Seq<char>>::empty());
            return None;
        }
        let mut best: usize = 0;
        let mut k: usize = 1;
        while k < dirs.len()
            invariant
                dirs.items().to_set() == dirs@,
                1 <= k <= dirs.items().len(),
                best < k,
                forall|j: int| 0 <= j < k ==> byte_len(dirs.items()[best as int]) <= byte_len(#[trigger] dirs.items()[j]),
            decreases dirs.items().len() - k,
        {
            if dirs.item_at(k).as_str().len() < dirs.item_at(best).as_str().len() {
                best = k;
            }
            k = k + 1;
        }
        let m = dirs.item_at(best).clone();
        proof {
            let its = dirs.items();
            assert(its.to_set().contains(its[best as int]));
            assert forall|d: Seq<char>| dirs@.contains(d) implies byte_len(m@) <= byte_len(d) by {
                let j = choose|j: int| 0 <= j < its.len() && #[trigger] its[j] == d;
            }
        }
        Some(m)
    }

    /// Adds the package roots of `files` to `roots`.
    fn add_package_roots(files: &TextMap, roots: &mut TextSet)
        requires
            files.wf(),
            old(roots).wf(),
        ensures
            final(roots).wf(),
            final(roots)@ == old(roots)@ + package_roots(files@),
    {
        let ghost base = roots@;
        let n = files.len();
        proof {
            files.lemma_keys();
        }
        let mut i: usize = 0;
        assert(roots_among(files@, files.keys(), 0) =~= Set::<Seq<char>>::empty());
        while i < n
            invariant
                files.wf(),
                n == files.len_spec(),
                files.keys().len() == n,
                files.keys().to_set() == files@.dom(),
                i <= n,
                roots.wf(),
                roots@ == base + roots_among(files@, files.keys(), i as int),
            decreases n - i,
        {
            let (key, value) = files.entry_at(i);
            let ghost found: Option<Seq<char>> = None;
            if Self::is_marker(value.as_str()) {
                match parent(key.as_str()) {
                    Some(package_dir) => match parent(package_dir.as_str()) {
                        Some(package_parent) => {
                            proof {
                                found = Some(package_parent@);
                            }
                            roots.insert(package_parent);
                        },
                        None => {},
                    },
                    None => {},
                }
            }
            proof {
                let ks = files.keys();
                assert(marker_root(files@, ks[i as int]) == found);
                let next = roots_among(files@, ks, i + 1);
                let prev = roots_among(files@, ks, i as int);
                assert forall|r: Seq<char>| #[trigger] next.contains(r) <==> (match found {
                    Some(f) => prev.insert(f),
                    None => prev,
                }).contains(r) by {
                    if next.contains(r) {
                        let j = choose|j: int| 0 <= j < i + 1 && #[trigger] marker_root(files@, ks[j]) == Some(r);
                        if j < i {
                            assert(prev.contains(r));
                        }
                    }
                    if prev.contains(r) {
                        let j = choose|j: int| 0 <= j < i && #[trigger] marker_root(files@, ks[j]) == Some(r);
                        assert(marker_root(files@, ks[j]) == Some(r));
                    }
                }
                assert(roots@ =~= base + next);
            }
            i = i + 1;
        }
        proof {
            let ks = files.keys();
            assert forall|r: Seq<char>| #[trigger] roots_among(files@, ks, n as int).contains(r) <==> package_roots(files@).contains(r) by {
                if roots_among(files@, ks, n as int).contains(r) {
                    let j = choose|j: int| 0 <= j < n && #[trigger] marker_root(files@, ks[j]) == Some(r);
                    assert(ks.to_set().contains(ks[j]));
                }
                if package_roots(files@).contains(r) {
                    let k = choose|k: Seq<char>| files@.contains_key(k) && #[trigger] marker_root(files@, k) == Some(r);
                    assert(ks.to_set().contains(k));
                    let j = choose|j: int| 0 <= j < ks.len() && ks[j] == k;
                    assert(marker_root(files@, ks[j]) == Some(r));
                }
            }
            assert(roots_among(files@, ks, n as int) =~= package_roots(files@));
        }
    }

    /// The shortest directory, by bytes, and the package roots.
    fn compute_root_dirs(files: &TextMap, dirs: &TextSet) -> (roots: TextSet)
        requires
            files.wf(),
            dirs.wf(),
        ensures
            roots.wf(),
            dirs@.is_empty() ==> roots@ == package_roots(files@),
            !dirs@.is_empty() ==> exists|m: Seq<char>| {
                &&& #[trigger] dirs@.contains(m)
                &&& forall|d: Seq<char>| dirs@.contains(d) ==> byte_len(m) <= byte_len(d)
                &&& roots@ == package_roots(files@).insert(m)
            },
    {
        let mut roots = TextSet::new();
        match Self::shortest_dir(dirs) {
            Some(m) => {
                let ghost mv = m@;
                roots.insert(m);
                Self::add_package_roots(files, &mut roots);
                assert(roots@ =~= package_roots(files@).insert(mv));
            },
            None => {
                Self::add_package_roots(files, &mut roots);
                assert(roots@ =~= package_roots(files@));
            },
        }
        roots
    }

    fn is_marker(p: &str) -> (b: bool)
        ensures
            b == is_package_marker(p@),
    {
        let v = crate::text::chars_of(p);
        let suffix = crate::text::chars_of("__init__.py");
        proof {
            reveal_strlit("__init__.py");
        }
        let n = v.len();
        if n < 11 {
            return false;
        }
        let mut k: usize = 0;
        while k < 11
            invariant
                v@ == p@,
                suffix@ == "__init__.py"@,
                suffix@.len() == 11,
                n == v@.len(),
                n >= 11,
                k <= 11,
                forall|j: int| 0 <= j < k ==> v@[n - 11 + j] == suffix@[j],
            decreases 11 - k,
        {
            if v[n - 11 + k] != suffix[k] {
                assert(p@.subrange(n - 11, n as int)[k as int] != "__init__.py"@[k as int]);
                return false;
            }
            k = k + 1;
        }
        assert(p@.subrange(n - 11, n as int) =~= "__init__.py"@);
        true
    }

    /// The path of the file whose path matches `norm_file_path` regardless
    /// of case: the file filed under the lower-cased `norm_file_path`.
    pub fn get_denormalized_file(&self, norm_file_path: &str) -> (r: Option<&String>)
        requires
            self.wf(),
        ensures
            match r {
                Some(p) => self.normalized_view().contains_key(lowercase_text(norm_file_path@))
                    && self.normalized_view()[lowercase_text(norm_file_path@)] == p@,
                None => !self.normalized_view().contains_key(lowercase_text(norm_file_path@)),
            },
    {
        let lower = to_lowercase(norm_file_path);
        self.normalized_files.get(lower.as_str())
    }

    /// The likely roots of the source tree.
    pub fn get_root_dirs(&self) -> (r: &TextSet)
        ensures
            r@ == self.root_dirs_view(),
    {
        &self.root_dirs
    }

    /// The directories of the files.
    pub fn get_dirs(&self) -> (r: &TextSet)
        ensures
            r@ == self.dirs_view(),
    {
        &self.dirs
    }
}

} // verus!
