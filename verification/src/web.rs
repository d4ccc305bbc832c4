//! The content decisions behind the static-asset route: which resource
//! a request path selects and whether the compressed payload is served.

use vstd::prelude::*;
use vstd::string::*;
use crate::assets::get_file_data;
use crate::assets::get_index_data;
use crate::assets::lookup_resource;
use crate::assets::AssetStore;
use crate::assets::AssetStoreView;
use crate::assets::Resource;
use crate::assets::ResourceView;

verus! {

/// `needle` occurs contiguously somewhere in `hay`.
pub open spec fn spec_str_contains(hay: Seq<char>, needle: Seq<char>) -> bool {
    exists|i: int|
        0 <= i && i + needle.len() <= hay.len() && #[trigger] hay.subrange(i, i + needle.len())
            == needle
}

/// Decide whether `needle` occurs contiguously in `hay`.
pub fn str_contains(hay: &str, needle: &str) -> (r: bool)
    ensures
        r == spec_str_contains(hay@, needle@),
{
    let n = hay.unicode_len();
    let m = needle.unicode_len();
    if m > n {
        return false;
    }
    if m == 0 {
        proof {
            assert(hay@.subrange(0, 0 + needle@.len() as int) =~= needle@);
        }
        return true;
    }
    let mut i: usize = 0;
    while i <= n - m
        invariant
            0 < m <= n,
            n == hay@.len(),
            m == needle@.len(),
            i <= n - m + 1,
            forall|k: int| 0 <= k < i ==> #[trigger] hay@.subrange(k, k + m) != needle@,
        decreases n - m + 1 - i,
    {
        let mut j: usize = 0;
        let mut mismatch = false;
        while j < m
            invariant
                i + m <= n,
                n == hay@.len(),
                m == needle@.len(),
                j <= m,
                !mismatch ==> forall|k: int| 0 <= k < j ==> hay@[i + k] == needle@[k],
                mismatch ==> hay@.subrange(i as int, i + m) != needle@,
            decreases m - j,
        {
            if hay.get_char(i + j) != needle.get_char(j) {
                proof {
                    assert(hay@.subrange(i as int, i + m)[j as int] == hay@[i + j]);
                }
                mismatch = true;
                j = m;
            } else {
                j = j + 1;
            }
        }
        if !mismatch {
            proof {
                assert(hay@.subrange(i as int, i + m) =~= needle@);
            }
            return true;
        }
        i = i + 1;
    }
    proof {
        assert forall|k: int|
            0 <= k && k + needle@.len() <= hay@.len() implies !(#[trigger] hay@.subrange(
            k,
            k + needle@.len(),
        ) == needle@) by {
            assert(k < i);
            assert(hay@.subrange(k, k + m) != needle@);
        }
    }
    false
}

/// The request accepts a gzip payload: an `Accept-Encoding` header is
/// present and names `gzip`.
pub fn wants_gzip(accept_encoding: Option<&str>) -> (r: bool)
    ensures
        r == match accept_encoding {
            Some(s) => spec_str_contains(s@, "gzip"@),
            None => false,
        },
{
    match accept_encoding {
        Some(s) => str_contains(s, "gzip"),
        None => false,
    }
}

/// The resource a request path selects: the stored resource under the
/// path (an absent path means the index page), or the index resource
/// when the path is unknown.
pub open spec fn spec_resolve(store: AssetStoreView, path: Option<Seq<char>>) -> ResourceView {
    let key = match path {
        Some(p) => p,
        None => "index.html"@,
    };
    match lookup_resource(store.files, key) {
        Some(res) => res,
        None => store.index,
    }
}

/// Select the resource the given request path is served.
pub fn resolve_resource<'a>(store: &'a AssetStore, path: Option<&str>) -> (r: &'a Resource)
    ensures
        r@ == spec_resolve(
            store@,
            match path {
                Some(p) => Some(p@),
                None => None,
            },
        ),
{
    let found = match path {
        Some(p) => get_file_data(store, p),
        None => get_file_data(store, "index.html"),
    };
    match found {
        Some(res) => res,
        None => get_index_data(store),
    }
}

} // verus!
