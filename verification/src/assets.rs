//! The static-asset store: path to byte payload, precompressed payload
//! and MIME type, with a distinguished index resource.

use vstd::prelude::*;
use vstd::string::*;
use itertools::Itertools;

verus! {

/// One served asset: its raw bytes, its gzip-compressed bytes and its
/// MIME type.
pub struct Resource {
    pub data_uncompressed: Vec<u8>,
    pub data_gzip: Vec<u8>,
    pub mime_type: String,
}

/// Mathematical view of a `Resource`.
pub ghost struct ResourceView {
    pub data_uncompressed: Seq<u8>,
    pub data_gzip: Seq<u8>,
    pub mime_type: Seq<char>,
}

impl View for Resource {
    type V = ResourceView;

    open spec fn view(&self) -> ResourceView {
        ResourceView {
            data_uncompressed: self.data_uncompressed@,
            data_gzip: self.data_gzip@,
            mime_type: self.mime_type@,
        }
    }
}

/// The view of a list of keyed resources.
pub open spec fn files_view(s: Seq<(String, Resource)>) -> Seq<(Seq<char>, ResourceView)> {
    s.map_values(|p: (String, Resource)| (p.0@, p.1@))
}

/// The view of a list of strings.
pub open spec fn strings_view(s: Seq<String>) -> Seq<Seq<char>> {
    s.map_values(|x: String| x@)
}

/// The stored paths, in storage order.
pub open spec fn file_keys(files: Seq<(Seq<char>, ResourceView)>) -> Seq<Seq<char>> {
    files.map_values(|p: (Seq<char>, ResourceView)| p.0)
}

/// Mathematical view of an `AssetStore`.
pub ghost struct AssetStoreView {
    pub files: Seq<(Seq<char>, ResourceView)>,
    pub index: ResourceView,
}

impl AssetStoreView {
    /// Paths are unique, as in a compile-time path map.
    pub open spec fn wf(self) -> bool {
        forall|i: int, j: int|
            0 <= i < j < self.files.len() ==> self.files[i].0 != self.files[j].0
    }
}

/// First resource stored under the given path, if any.
pub open spec fn lookup_resource(
    files: Seq<(Seq<char>, ResourceView)>,
    path: Seq<char>,
) -> Option<ResourceView>
    decreases files.len(),
{
    if files.len() == 0 {
        None
    } else if files[0].0 == path {
        Some(files[0].1)
    } else {
        lookup_resource(files.drop_first(), path)
    }
}

/// A lookup misses exactly when no stored path matches.
pub proof fn lemma_lookup_none(files: Seq<(Seq<char>, ResourceView)>, path: Seq<char>)
    ensures
        (lookup_resource(files, path) is None) == (forall|i: int|
            0 <= i < files.len() ==> files[i].0 != path),
    decreases files.len(),
{
    if files.len() > 0 {
        let rest = files.drop_first();
        lemma_lookup_none(rest, path);
        if files[0].0 != path {
            if lookup_resource(files, path) is None {
                assert forall|i: int| 0 <= i < files.len() implies files[i].0 != path by {
                    if i > 0 {
                        assert(rest[i - 1] == files[i]);
                    }
                }
            } else {
                let j = choose|j: int| 0 <= j < rest.len() && rest[j].0 == path;
                assert(files[j + 1].0 == path);
            }
        }
    }
}

/// The path-keyed store of embedded assets, with the index resource
/// served when a path is unknown.
pub struct AssetStore {
    files: Vec<(String, Resource)>,
    index: Resource,
}

impl View for AssetStore {
    type V = AssetStoreView;

    closed spec fn view(&self) -> AssetStoreView {
        AssetStoreView { files: files_view(self.files@), index: self.index@ }
    }
}

impl AssetStore {
    /// An empty store serving only the given index resource.
    pub fn new(index: Resource) -> (r: AssetStore)
        ensures
            r@.files == Seq::<(Seq<char>, ResourceView)>::empty(),
            r@.index == index@,
            r@.wf(),
    {
        let r = AssetStore { files: Vec::new(), index };
        proof {
            assert(files_view(r.files@) =~= Seq::<(Seq<char>, ResourceView)>::empty());
        }
        r
    }

    /// Store a resource under a path not yet present; an already-known
    /// path leaves the store unchanged and reports failure.
    pub fn add(&mut self, path: String, data: Resource) -> (r: bool)
        ensures
            r == (lookup_resource(old(self)@.files, path@) is None),
            r ==> final(self)@.files == old(self)@.files.push((path@, data@)),
            !r ==> final(self)@.files == old(self)@.files,
            final(self)@.index == old(self)@.index,
            old(self)@.wf() ==> final(self)@.wf(),
    {
        let known = {
            let found = get_file_data(self, path.as_str());
            match found {
                Some(_) => true,
                None => false,
            }
        };
        if known {
            return false;
        }
        self.files.push((path, data));
        proof {
            assert(files_view(self.files@) =~= old(self)@.files.push((path@, data@)));
            lemma_lookup_none(old(self)@.files, path@);
            if old(self)@.wf() {
                let fs = self@.files;
                assert forall|i: int, j: int| 0 <= i < j < fs.len() implies fs[i].0 != fs[j].0 by {
                    assert(fs[i] == old(self)@.files[i]);
                    if j < fs.len() - 1 {
                        assert(fs[j] == old(self)@.files[j]);
                    }
                }
            }
        }
        true
    }
}

/// Character-for-character string equality, decided without assuming
/// anything beyond the character views.
pub fn str_eq(a: &str, b: &str) -> (r: bool)
    ensures
        r == (a@ == b@),
{
    let n = a.unicode_len();
    let m = b.unicode_len();
    if n != m {
        return false;
    }
    let mut i: usize = 0;
    while i < n
        invariant
            i <= n,
            n == a@.len(),
            n == b@.len(),
            forall|k: int| 0 <= k < i ==> a@[k] == b@[k],
        decreases n - i,
    {
        if a.get_char(i) != b.get_char(i) {
            return false;
        }
        i = i + 1;
    }
    proof {
        assert(a@ =~= b@);
    }
    true
}

/// Look up the resource stored under `file_path`, if any.
pub fn get_file_data<'a>(store: &'a AssetStore, file_path: &str) -> (r: Option<&'a Resource>)
    ensures
        (r is Some) == (lookup_resource(store@.files, file_path@) is Some),
        r matches Some(res) ==> lookup_resource(store@.files, file_path@) == Some(res@),
{
    let n = store.files.len();
    proof {
        assert(store@.files.skip(0) =~= store@.files);
    }
    let mut i: usize = 0;
    while i < n
        invariant
            i <= n,
            n == store@.files.len(),
            n == store.files@.len(),
            store@.files == files_view(store.files@),
            lookup_resource(store@.files, file_path@) == lookup_resource(
                store@.files.skip(i as int),
                file_path@,
            ),
        decreases n - i,
    {
        let entry = &store.files[i];
        let hit = str_eq(entry.0.as_str(), file_path);
        proof {
            let v = store@.files;
            assert(v.skip(i as int).len() == n - i);
            assert(v.skip(i as int)[0] == v[i as int]);
            assert(v.skip(i as int).drop_first() =~= v.skip(i as int + 1));
        }
        if hit {
            return Some(&entry.1);
        }
        i = i + 1;
    }
    proof {
        assert(store@.files.skip(n as int).len() == 0);
    }
    None
}

/// The index resource.
pub fn get_index_data<'a>(store: &'a AssetStore) -> (r: &'a Resource)
    ensures
        r@ == store@.index,
{
    &store.index
}

/// Nondecreasing lexicographic order on character sequences, the order
/// in which `Ord` ranks strings.
pub open spec fn lex_leq(a: Seq<char>, b: Seq<char>) -> bool
    decreases a.len(),
{
    if a.len() == 0 {
        true
    } else if b.len() == 0 {
        false
    } else if (a[0] as u32) < (b[0] as u32) {
        true
    } else if (a[0] as u32) > (b[0] as u32) {
        false
    } else {
        lex_leq(a.drop_first(), b.drop_first())
    }
}

/// Relies on `itertools::Itertools::sorted` and the documented `Ord` of
/// `String` (lexicographic over the character values): the same strings
/// come back, in nondecreasing lexicographic order.
#[verifier::external_body]
fn sorted_strings(v: Vec<String>) -> (r: Vec<String>)
    ensures
        r@.len() == v@.len(),
        strings_view(r@).to_multiset() == strings_view(v@).to_multiset(),
        forall|i: int, j: int| 0 <= i < j < r@.len() ==> lex_leq(r@[i]@, r@[j]@),
{
    v.into_iter().sorted().collect()
}

/// All stored paths, in nondecreasing lexicographic order.
pub fn get_file_list(store: &AssetStore) -> (r: Vec<String>)
    ensures
        r@.len() == store@.files.len(),
        strings_view(r@).to_multiset() == file_keys(store@.files).to_multiset(),
        forall|i: int, j: int| 0 <= i < j < r@.len() ==> lex_leq(r@[i]@, r@[j]@),
{
    let n = store.files.len();
    let mut keys: Vec<String> = Vec::new();
    proof {
        assert(strings_view(keys@) =~= file_keys(store@.files).subrange(0, 0));
    }
    let mut i: usize = 0;
    while i < n
        invariant
            i <= n,
            n == store.files@.len(),
            store@.files == files_view(store.files@),
            strings_view(keys@) == file_keys(store@.files).subrange(0, i as int),
        decreases n - i,
    {
        let ghost keys0 = keys@;
        keys.push(store.files[i].0.clone());
        i = i + 1;
        proof {
            let all = file_keys(store@.files);
            assert(strings_view(keys0).len() == keys0.len());
            assert(keys0.len() == i - 1);
            assert(keys@.len() == i);
            assert(all[i - 1] == store@.files[i - 1].0);
            assert(store@.files[i - 1].0 == store.files@[i - 1].0@);
            assert forall|l: int| 0 <= l < i implies strings_view(keys@)[l] == all.subrange(
                0,
                i as int,
            )[l] by {
                if l < i - 1 {
                    assert(keys@[l] == keys0[l]);
                    assert(strings_view(keys0)[l] == keys0[l]@);
                } else {
                    assert(keys@[l]@ == all[l]);
                }
            }
            assert(strings_view(keys@) =~= all.subrange(0, i as int));
        }
    }
    proof {
        assert(file_keys(store@.files).subrange(0, n as int) =~= file_keys(store@.files));
    }
    sorted_strings(keys)
}

} // verus!
