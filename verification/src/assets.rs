//! The store of embedded UI assets: a lookup from a resource path to a
//! content type and a byte payload.

use vstd::prelude::*;
use crate::text::str_eq;

verus! {

/// One embedded asset: its lookup path, its content type, and its
/// bytes.
pub struct Asset {
    pub path: String,
    pub content_type: String,
    pub content: Vec<u8>,
}

/// Maps resource paths to assets.  The first entry with a matching
/// path wins.
pub struct AssetResolver {
    pub assets: Vec<Asset>,
}

/// The content type and bytes of the first asset in `assets` whose
/// path is `path`, or `None` when no entry matches.
pub open spec fn spec_lookup_in(assets: Seq<Asset>, path: Seq<char>) -> Option<(Seq<char>, Seq<u8>)>
    decreases assets.len(),
{
    if assets.len() == 0 {
        Option::None
    } else if assets[0].path@ == path {
        Option::Some((assets[0].content_type@, assets[0].content@))
    } else {
        spec_lookup_in(assets.subrange(1, assets.len() as int), path)
    }
}

impl AssetResolver {
    /// A store with no assets.
    pub fn new() -> (r: AssetResolver)
        ensures
            r.assets@.len() == 0,
    {
        AssetResolver { assets: Vec::new() }
    }

    /// What `path` resolves to in this store.
    pub open spec fn spec_lookup(&self, path: Seq<char>) -> Option<(Seq<char>, Seq<u8>)> {
        spec_lookup_in(self.assets@, path)
    }

    /// Adds an asset at the end of the store.
    pub fn add(&mut self, path: String, content_type: String, content: Vec<u8>)
        ensures
            final(self).assets@ == old(self).assets@.push(
                (Asset { path: path, content_type: content_type, content: content }),
            ),
    {
        self.assets.push(Asset { path, content_type, content });
    }

    /// Finds the first asset whose path is `path`.
    pub fn lookup(&self, path: &str) -> (r: Option<&Asset>)
        ensures
            match r {
                Option::Some(a) => self.spec_lookup(path@) == Option::Some(
                    (a.content_type@, a.content@),
                ) && a.path@ == path@,
                Option::None => self.spec_lookup(path@) is None,
            },
    {
        let n = self.assets.len();
        let mut i: usize = 0;
        proof {
            assert(self.assets@.subrange(0, n as int) =~= self.assets@);
        }
        while i < n
            invariant
                n == self.assets@.len(),
                i <= n,
                spec_lookup_in(self.assets@, path@) == spec_lookup_in(
                    self.assets@.subrange(i as int, n as int),
                    path@,
                ),
            decreases n - i,
        {
            let a = &self.assets[i];
            if str_eq(a.path.as_str(), path) {
                proof {
                    assert(self.assets@.subrange(i as int, n as int)[0] == self.assets@[i as int]);
                }
                return Some(a);
            }
            proof {
                let tail = self.assets@.subrange(i as int, n as int);
                assert(tail[0] == self.assets@[i as int]);
                assert(tail.subrange(1, tail.len() as int) =~= self.assets@.subrange(
                    i as int + 1,
                    n as int,
                ));
            }
            i = i + 1;
        }
        proof {
            assert(self.assets@.subrange(n as int, n as int) =~= Seq::<Asset>::empty());
        }
        None
    }
}

} // verus!
