//! Manifest diffing: which expected files are missing under an asset root.
//!
//! The caller checks each candidate path on disk and hands the outcome in as
//! a vector of presence flags, so the selection logic itself is verified:
//! `diff_missing` returns exactly the paths whose flag is `false`, in input
//! order.

use vstd::prelude::*;
use vstd::slice::slice_to_vec;
use vstd::string::StringSliceAdditionalSpecFns;

verus! {

/// The subsequence of the first `n` entries of `paths` whose matching
/// `present` flag is false, in input order.
pub open spec fn missing_upto(paths: Seq<String>, present: Seq<bool>, n: int) -> Seq<String>
    decreases n,
{
    if n <= 0 {
        Seq::empty()
    } else {
        let rest = missing_upto(paths, present, n - 1);
        if present[n - 1] {
            rest
        } else {
            rest.push(paths[n - 1])
        }
    }
}

/// The subsequence of `paths` whose matching `present` flag is false,
/// in input order.
pub open spec fn missing_of(paths: Seq<String>, present: Seq<bool>) -> Seq<String> {
    missing_upto(paths, present, paths.len() as int)
}

/// Returns the expected paths that are not present, preserving input order.
///
/// `paths[i]` is reported missing exactly when `present[i]` is false; the
/// caller supplies one presence flag per path, taken from a filesystem
/// check of `root/path`.
pub fn diff_missing(paths: &Vec<String>, present: &Vec<bool>) -> (r: Vec<String>)
    requires
        paths@.len() == present@.len(),
    ensures
        r@ == missing_of(paths@, present@),
{
    let mut out: Vec<String> = Vec::new();
    let n = paths.len();
    let mut i: usize = 0;
    while i < n
        invariant
            n == paths@.len(),
            n == present@.len(),
            i <= n,
            out@ == missing_upto(paths@, present@, i as int),
        decreases n - i,
    {
        if !present[i] {
            out.push(paths[i].clone());
        }
        i = i + 1;
    }
    out
}

/// When no expected path is present, the diff returns the whole list,
/// in order.
pub proof fn lemma_diff_all_missing(paths: Seq<String>, present: Seq<bool>)
    requires
        paths.len() == present.len(),
        forall|i: int| 0 <= i < present.len() ==> !present[i],
    ensures
        missing_of(paths, present) == paths,
{
    lemma_missing_upto_all_missing(paths, present, paths.len() as int);
    assert(missing_of(paths, present) =~= paths);
}

proof fn lemma_missing_upto_all_missing(paths: Seq<String>, present: Seq<bool>, n: int)
    requires
        0 <= n <= paths.len(),
        paths.len() == present.len(),
        forall|i: int| 0 <= i < present.len() ==> !present[i],
    ensures
        missing_upto(paths, present, n) =~= paths.take(n),
    decreases n,
{
    if n > 0 {
        lemma_missing_upto_all_missing(paths, present, n - 1);
        assert(paths.take(n) =~= paths.take(n - 1).push(paths[n - 1]));
    } else {
        assert(paths.take(0) =~= Seq::<String>::empty());
    }
}

/// When every expected path is present, the diff is empty.
pub proof fn lemma_diff_none_missing(paths: Seq<String>, present: Seq<bool>)
    requires
        paths.len() == present.len(),
        forall|i: int| 0 <= i < present.len() ==> present[i],
    ensures
        missing_of(paths, present) == Seq::<String>::empty(),
{
    lemma_missing_upto_none_missing(paths, present, paths.len() as int);
    assert(missing_of(paths, present) =~= Seq::<String>::empty());
}

proof fn lemma_missing_upto_none_missing(paths: Seq<String>, present: Seq<bool>, n: int)
    requires
        0 <= n <= paths.len(),
        paths.len() == present.len(),
        forall|i: int| 0 <= i < present.len() ==> present[i],
    ensures
        missing_upto(paths, present, n) =~= Seq::<String>::empty(),
    decreases n,
{
    if n > 0 {
        lemma_missing_upto_none_missing(paths, present, n - 1);
    }
}

/// The on-disk location of an expected file: the asset root and the
/// relative path joined with a single '/' separator.
pub open spec fn object_path_of(root: &str, rel: &str) -> Seq<char> {
    if root.spec_bytes().len() > 0 && root.spec_bytes().last() == 47 {
        root@ + rel@
    } else {
        root@ + seq!['/'] + rel@
    }
}

/// Builds the on-disk location of an expected file under the asset root,
/// inserting a '/' separator when the root does not already end in one.
pub fn object_path(root: &str, rel: &str) -> (r: String)
    ensures
        r@ == object_path_of(root, rel),
{
    let rbytes: Vec<u8> = slice_to_vec(root.as_bytes());
    let mut s = root.to_owned();
    let rlen = rbytes.len();
    if !(rlen > 0 && rbytes[rlen - 1] == 47) {
        proof {
            reveal_strlit("/");
            assert("/"@ =~= seq!['/']);
        }
        s.append("/");
    }
    s.append(rel);
    s
}

} // verus!
