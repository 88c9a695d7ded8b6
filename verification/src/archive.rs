//! Archive extraction planning: container dispatch and per-entry decisions.
//!
//! The caller owns the archive readers; this module makes the decisions
//! they act on.  `detect_format` dispatches on the archive's name;
//! `plan_entry` turns one entry name into the action to take under the
//! destination directory, rejecting any entry whose path could escape it.

use vstd::prelude::*;
use vstd::slice::slice_to_vec;
use vstd::string::StringSliceAdditionalSpecFns;

use crate::SyncError;

verus! {

/// Whether `suf` ends `s`.
pub open spec fn ends_with_chars(s: Seq<char>, suf: Seq<char>) -> bool {
    suf.len() <= s.len() && s.subrange(s.len() - suf.len(), s.len() as int) == suf
}

/// Relies on str::ends_with: true exactly when the characters of `suffix`
/// end `s`.
#[verifier::external_body]
fn str_ends_with(s: &str, suffix: &str) -> (r: bool)
    ensures
        r == ends_with_chars(s@, suffix@),
{
    s.ends_with(suffix)
}

/// The two container families the extractor understands.
#[derive(Clone, Copy, Debug, PartialEq, Eq, Structural)]
pub enum ArchiveFormat {
    /// A gzip-compressed tar stream.
    TarGz,
    /// A zip-style container, which also covers packaged-application
    /// archives sharing the zip format.
    Zip,
}

/// Names routed to the gzip-compressed tar family.
pub open spec fn is_targz_name(s: Seq<char>) -> bool {
    ends_with_chars(s, ".tar.gz"@) || ends_with_chars(s, ".tgz"@)
}

/// Names routed to the zip family.
pub open spec fn is_zip_name(s: Seq<char>) -> bool {
    ends_with_chars(s, ".zip"@) || ends_with_chars(s, ".jar"@)
}

/// Dispatches an archive to its container family by file name.  Names in
/// neither family are rejected with `UnsupportedFormat`.
pub fn detect_format(name: &str) -> (r: Result<ArchiveFormat, SyncError>)
    ensures
        r == Ok::<ArchiveFormat, SyncError>(ArchiveFormat::TarGz) <==> is_targz_name(name@),
        r == Ok::<ArchiveFormat, SyncError>(ArchiveFormat::Zip) <==> (!is_targz_name(name@)
            && is_zip_name(name@)),
        r is Err ==> r == Err::<ArchiveFormat, SyncError>(SyncError::UnsupportedFormat),
{
    if str_ends_with(name, ".tar.gz") || str_ends_with(name, ".tgz") {
        Ok(ArchiveFormat::TarGz)
    } else if str_ends_with(name, ".zip") || str_ends_with(name, ".jar") {
        Ok(ArchiveFormat::Zip)
    } else {
        Err(SyncError::UnsupportedFormat)
    }
}

/// A ".." path component stands at byte offset `i` of `b`: two dots
/// delimited by the string's ends or by '/' separators.
pub open spec fn is_dotdot_at(b: Seq<u8>, i: int) -> bool {
    &&& 0 <= i
    &&& i + 2 <= b.len()
    &&& b[i] == 46
    &&& b[i + 1] == 46
    &&& (i == 0 || b[i - 1] == 47)
    &&& (i + 2 == b.len() || b[i + 2] == 47)
}

/// Some ".." component occurs in the path.
pub open spec fn has_dotdot(b: Seq<u8>) -> bool {
    exists|i: int| is_dotdot_at(b, i)
}

/// An entry name that may not be extracted: empty, absolute, using a
/// backslash separator, or carrying a ".." component — everything that
/// could resolve outside the destination directory.
pub open spec fn is_unsafe_entry(b: Seq<u8>) -> bool {
    ||| b.len() == 0
    ||| b[0] == 47
    ||| b.contains(92)
    ||| has_dotdot(b)
}

/// Checks an entry name against `is_unsafe_entry` over its UTF-8 bytes.
pub fn entry_is_safe(name: &str) -> (r: bool)
    ensures
        r == !is_unsafe_entry(name.spec_bytes()),
{
    let bytes: Vec<u8> = slice_to_vec(name.as_bytes());
    let n = bytes.len();
    if n == 0 {
        return false;
    }
    if bytes[0] == 47 {
        return false;
    }
    let mut i: usize = 0;
    while i < n
        invariant
            n == bytes@.len(),
            i <= n,
            bytes@ == name.spec_bytes(),
            forall|j: int| 0 <= j < i ==> bytes@[j] != 92,
            forall|j: int| j < i ==> !is_dotdot_at(bytes@, j),
        decreases n - i,
    {
        if bytes[i] == 92 {
            proof {
                assert(bytes@[i as int] == 92);
                assert(bytes@.contains(92));
            }
            return false;
        }
        if bytes[i] == 46 && i + 1 < n && bytes[i + 1] == 46 {
            let left_ok = i == 0 || bytes[i - 1] == 47;
            let right_ok = i + 2 == n || bytes[i + 2] == 47;
            if left_ok && right_ok {
                proof {
                    assert(is_dotdot_at(bytes@, i as int));
                }
                return false;
            }
        }
        i = i + 1;
    }
    proof {
        assert(forall|j: int| !is_dotdot_at(bytes@, j));
        assert(!bytes@.contains(92));
    }
    true
}

/// The location of `name` under the destination directory `dest`: the two
/// joined with a single '/' separator.
pub open spec fn joined_path(dest: &str, name: &str) -> Seq<char> {
    if dest.spec_bytes().len() > 0 && dest.spec_bytes().last() == 47 {
        dest@ + name@
    } else {
        dest@ + seq!['/'] + name@
    }
}

/// Joins an entry name onto the destination directory with a single '/'
/// separator.
pub fn join_under(dest: &str, name: &str) -> (r: String)
    ensures
        r@ == joined_path(dest, name),
{
    let dbytes: Vec<u8> = slice_to_vec(dest.as_bytes());
    let mut s = dest.to_owned();
    let dlen = dbytes.len();
    if !(dlen > 0 && dbytes[dlen - 1] == 47) {
        proof {
            reveal_strlit("/");
            assert("/"@ =~= seq!['/']);
        }
        s.append("/");
    }
    s.append(name);
    s
}

/// What the extractor does with one archive entry.
#[derive(Clone, Debug, PartialEq, Eq)]
pub enum EntryAction {
    /// Create this directory, parents included.
    MakeDir(String),
    /// Create the file's parent directories on demand, then write the
    /// entry's content to this path.
    WriteFile(String),
}

/// The destination path an action touches.
pub open spec fn action_path(a: EntryAction) -> Seq<char> {
    match a {
        EntryAction::MakeDir(p) => p@,
        EntryAction::WriteFile(p) => p@,
    }
}

/// Decides what to do with one archive entry.
///
/// An unsafe entry name — one that could resolve outside `dest` — is
/// rejected with `InvalidEntry` and nothing is written.  A safe name maps
/// to the action on `dest/name`: a directory when the entry name ends in
/// '/', a file write otherwise.
pub fn plan_entry(dest: &str, name: &str) -> (r: Result<EntryAction, SyncError>)
    ensures
        r is Err <==> is_unsafe_entry(name.spec_bytes()),
        r is Err ==> r == Err::<EntryAction, SyncError>(SyncError::InvalidEntry),
        r matches Ok(a) ==> action_path(a) == joined_path(dest, name),
        r matches Ok(a) ==> ((a is MakeDir) <==> name.spec_bytes().last() == 47),
{
    if !entry_is_safe(name) {
        return Err(SyncError::InvalidEntry);
    }
    let path = join_under(dest, name);
    let bytes: Vec<u8> = slice_to_vec(name.as_bytes());
    if bytes[bytes.len() - 1] == 47 {
        Ok(EntryAction::MakeDir(path))
    } else {
        Ok(EntryAction::WriteFile(path))
    }
}

} // verus!
