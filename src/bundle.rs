//! The asset bundle: an immutable table from logical path to content.
use vstd::prelude::*;
use vstd::string::StringSliceAdditionalSpecFns;
use crate::text::{bytes_eq, strip_leading_slashes, strip_slashes};

verus! {

/// One file of the bundle. `path` is the logical path without leading
/// slashes, as bytes.
pub struct Asset {
    pub path: Vec<u8>,
    pub content_type: String,
    pub data: Vec<u8>,
}

/// The mathematical value of an [`Asset`].
pub struct AssetView {
    pub path: Seq<u8>,
    pub content_type: Seq<char>,
    pub data: Seq<u8>,
}

impl View for Asset {
    type V = AssetView;

    open spec fn view(&self) -> AssetView {
        AssetView { path: self.path@, content_type: self.content_type@, data: self.data@ }
    }
}

/// A set of assets with pairwise distinct logical paths.
pub struct Bundle {
    assets: Vec<Asset>,
}

impl Bundle {
    /// No two assets share a logical path.
    pub closed spec fn wf(&self) -> bool {
        &&& forall|i: int, j: int|
            0 <= i < j < self.assets@.len() ==> self.assets@[i].path@ != self.assets@[j].path@
        &&& forall|i: int|
            0 <= i < self.assets@.len() ==> strip_slashes(#[trigger] self.assets@[i].path@)
                == self.assets@[i].path@
    }

    /// Every logical path in the bundle is free of leading slashes.
    pub proof fn lemma_keys_normalized(&self, key: Seq<u8>)
        requires
            self.wf(),
            self.get(key) is Some,
        ensures
            strip_slashes(key) == key,
    {
        let i = choose|i: int| self.has_at(key, i);
        assert(self.has_at(key, i));
    }

    /// The index of the asset stored under `key`.
    spec fn has_at(&self, key: Seq<u8>, i: int) -> bool {
        0 <= i < self.assets@.len() && self.assets@[i].path@ == key
    }

    /// The asset stored under the logical path `key`, if any.
    pub closed spec fn get(&self, key: Seq<u8>) -> Option<AssetView> {
        if exists|i: int| self.has_at(key, i) {
            Some(self.assets@[choose|i: int| self.has_at(key, i)]@)
        } else {
            None
        }
    }

    /// The number of assets.
    pub closed spec fn size(&self) -> nat {
        self.assets@.len()
    }

    proof fn lemma_get_at(&self, key: Seq<u8>, i: int)
        requires
            self.wf(),
            self.has_at(key, i),
        ensures
            self.get(key) == Some(self.assets@[i]@),
    {
        let c = choose|c: int| self.has_at(key, c);
        assert(self.has_at(key, c));
        if c < i {
        } else if i < c {
        }
    }

    /// An empty bundle.
    pub fn new() -> (b: Bundle)
        ensures
            b.wf(),
            b.size() == 0,
            forall|k: Seq<u8>| #[trigger] b.get(k) is None,
    {
        Bundle { assets: Vec::new() }
    }

    /// The number of assets.
    pub fn len(&self) -> (n: usize)
        ensures
            n == self.size(),
    {
        self.assets.len()
    }

    /// Stores `data` of type `content_type` under `path` with its leading
    /// slashes removed, replacing what was stored under that logical path.
    #[verifier::loop_isolation(false)]
    pub fn insert(&mut self, path: &str, content_type: &str, data: Vec<u8>)
        requires
            old(self).wf(),
        ensures
            final(self).wf(),
            forall|k: Seq<u8>| #[trigger] final(self).get(k) == if k == strip_slashes(path.spec_bytes()) {
                Some(AssetView { path: k, content_type: content_type@, data: data@ })
            } else {
                old(self).get(k)
            },
    {
        let ghost data_view = data@;
        let key: Vec<u8> = strip_leading_slashes(path.as_bytes());
        let asset = Asset { path: key, content_type: String::from_str(content_type), data };
        proof {
            crate::text::lemma_strip_slashes_idempotent(path.spec_bytes());
        }
        let ghost new_view = AssetView {
            path: strip_slashes(path.spec_bytes()),
            content_type: content_type@,
            data: data_view,
        };
        assert(asset@ == new_view);
        let n: usize = self.assets.len();
        let mut i: usize = 0;
        while i < n
            invariant
                n == self.assets@.len(),
                self == old(self),
                i <= n,
                forall|m: int| 0 <= m < i ==> self.assets@[m].path@ != new_view.path,
            decreases n - i,
        {
            if bytes_eq(self.assets[i].path.as_slice(), asset.path.as_slice()) {
                self.assets.set(i, asset);
                proof {
                    assert(self.wf()) by {
                        assert forall|a: int, b: int|
                            0 <= a < b < self.assets@.len() implies self.assets@[a].path@
                            != self.assets@[b].path@ by {
                            assert(old(self).assets@[a].path@ != old(self).assets@[b].path@);
                        }
                    }
                    assert forall|k: Seq<u8>| #[trigger] self.get(k) == if k == new_view.path {
                        Some(new_view)
                    } else {
                        old(self).get(k)
                    } by {
                        if k == new_view.path {
                            assert(self.assets@[i as int]@ == new_view);
                            self.lemma_get_at(k, i as int);
                        } else if exists|j: int| old(self).has_at(k, j) {
                            let j = choose|j: int| old(self).has_at(k, j);
                            old(self).lemma_get_at(k, j);
                            assert(j != i);
                            assert(self.has_at(k, j));
                            self.lemma_get_at(k, j);
                        } else {
                            assert forall|j: int| !self.has_at(k, j) by {
                                assert(!old(self).has_at(k, j));
                            }
                        }
                    }
                }
                return;
            }
            i = i + 1;
        }
        self.assets.push(asset);
        proof {
            assert forall|k: Seq<u8>| #[trigger] self.get(k) == if k == new_view.path {
                Some(new_view)
            } else {
                old(self).get(k)
            } by {
                if k == new_view.path {
                    self.lemma_get_at(k, n as int);
                } else if exists|j: int| old(self).has_at(k, j) {
                    let j = choose|j: int| old(self).has_at(k, j);
                    old(self).lemma_get_at(k, j);
                    assert(self.has_at(k, j));
                    self.lemma_get_at(k, j);
                } else {
                    assert forall|j: int| !self.has_at(k, j) by {
                        assert(!old(self).has_at(k, j));
                    }
                }
            }
        }
    }

    /// The asset stored under the logical path `key`.
    pub fn lookup(&self, key: &[u8]) -> (r: Option<&Asset>)
        requires
            self.wf(),
        ensures
            r matches Some(a) ==> self.get(key@) == Some(a@),
            r is None ==> self.get(key@) is None,
    {
        let n: usize = self.assets.len();
        let mut i: usize = 0;
        while i < n
            invariant
                self.wf(),
                n == self.assets@.len(),
                i <= n,
                forall|m: int| 0 <= m < i ==> self.assets@[m].path@ != key@,
            decreases n - i,
        {
            if bytes_eq(self.assets[i].path.as_slice(), key) {
                proof {
                    self.lemma_get_at(key@, i as int);
                }
                return Some(&self.assets[i]);
            }
            i = i + 1;
        }
        assert forall|j: int| !self.has_at(key@, j) by {}
        None
    }
}

} // verus!
