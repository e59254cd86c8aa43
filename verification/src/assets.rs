//! The embedded asset catalogue's listing rule. The archive of icon and
//! font files is embedded by the shell; which of its paths a listing under
//! a directory prefix returns is decided and verified here.

use vstd::prelude::*;

use crate::text::{is_prefix, starts_with};

verus! {

/// Exactly the paths that start with the prefix, in catalogue order.
pub open spec fn paths_under(paths: Seq<String>, prefix: Seq<char>) -> Seq<String>
    decreases paths.len(),
{
    if paths.len() == 0 {
        Seq::<String>::empty()
    } else {
        let rest = paths_under(paths.drop_last(), prefix);
        if is_prefix(prefix, paths.last()@) {
            rest.push(paths.last())
        } else {
            rest
        }
    }
}

/// The embedded asset source.
pub struct Assets;

impl Assets {
    /// Of the catalogue's paths, those under the given directory prefix,
    /// in catalogue order.
    pub fn list(paths: Vec<String>, prefix: &str) -> (r: Vec<String>)
        ensures
            r@ == paths_under(paths@, prefix@),
    {
        let ghost orig = paths@;
        let mut remaining = paths;
        let mut listed: Vec<String> = Vec::new();
        proof {
            assert(orig.take(0) =~= Seq::<String>::empty());
        }
        while remaining.len() > 0
            invariant
                remaining@.len() <= orig.len(),
                remaining@ == orig.skip(orig.len() - remaining@.len()),
                listed@ == paths_under(orig.take(orig.len() - remaining@.len()), prefix@),
            decreases remaining@.len(),
        {
            let ghost k: int = orig.len() - remaining@.len();
            let path = remaining.remove(0);
            proof {
                assert(path == orig[k]);
                assert(remaining@ =~= orig.skip(k + 1));
                assert(orig.take(k + 1).drop_last() =~= orig.take(k));
                assert(orig.take(k + 1).last() == orig[k]);
            }
            if starts_with(path.as_str(), prefix) {
                listed.push(path);
            }
        }
        proof {
            assert(orig.take(orig.len() as int) =~= orig);
        }
        listed
    }
}

} // verus!
