//! Parsing a Java runtime's version from its diagnostic output.
//!
//! `java -version` prints lines such as `openjdk version "17.0.2" 2022-01-18`
//! on its error stream.  The caller captures that output and splits it into
//! lines of bytes; the verified logic finds the first line that mentions
//! `version` and yields a quoted value, and returns the bytes between the
//! first pair of double quotes.

use vstd::prelude::*;

verus! {

/// The index of the first occurrence of `b` in `s` at or after `i`, or -1.
pub open spec fn find_from(s: Seq<u8>, i: int, b: u8) -> int
    decreases s.len() - i when 0 <= i <= s.len()
{
    if i < 0 || i >= s.len() {
        -1
    } else if s[i] == b {
        i
    } else {
        find_from(s, i + 1, b)
    }
}

/// `find_from` returns -1 or the position of a match, and skips no earlier
/// match.
pub proof fn lemma_find_from_props(s: Seq<u8>, i: int, b: u8)
    requires
        0 <= i <= s.len(),
    ensures
        find_from(s, i, b) == -1 || (i <= find_from(s, i, b) < s.len() && s[find_from(s, i, b)]
            == b),
    decreases s.len() - i,
{
    if i < s.len() && s[i] != b {
        lemma_find_from_props(s, i + 1, b);
    }
}

/// Finds the first occurrence of `b` in `v` at or after `start`.
pub fn find_byte_from(v: &Vec<u8>, start: usize, b: u8) -> (r: Option<usize>)
    requires
        start <= v@.len(),
    ensures
        r matches Some(i) ==> start <= i < v@.len() && find_from(v@, start as int, b) == i,
        r is None ==> find_from(v@, start as int, b) == -1,
{
    let mut i = start;
    while i < v.len()
        invariant
            start <= i <= v@.len(),
            find_from(v@, start as int, b) == find_from(v@, i as int, b),
        decreases v@.len() - i,
    {
        if v[i] == b {
            return Some(i);
        }
        i = i + 1;
    }
    None
}

/// The byte 34, the double-quote character.
pub open spec fn quote_byte() -> u8 {
    34
}

/// The bytes between the first double quote of `s` and the next one, when
/// both exist.
pub open spec fn quoted_of(s: Seq<u8>) -> Option<Seq<u8>> {
    let q1 = find_from(s, 0, quote_byte());
    if q1 < 0 {
        None
    } else {
        let q2 = find_from(s, q1 + 1, quote_byte());
        if q2 < 0 {
            None
        } else {
            Some(s.subrange(q1 + 1, q2))
        }
    }
}

/// Extracts the bytes between the first pair of double quotes of `line`.
pub fn extract_quoted(line: &Vec<u8>) -> (r: Option<Vec<u8>>)
    ensures
        r is Some <==> quoted_of(line@) is Some,
        r matches Some(v) ==> quoted_of(line@) == Some(v@),
{
    let q1 = match find_byte_from(line, 0, 34) {
        Some(q1) => q1,
        None => {
            return None;
        },
    };
    let n = line.len();
    proof {
        assert(q1 < n);
    }
    let q2 = match find_byte_from(line, q1 + 1, 34) {
        Some(q2) => q2,
        None => {
            return None;
        },
    };
    let mut out: Vec<u8> = Vec::new();
    let mut k = q1 + 1;
    proof {
        assert(line@.subrange(q1 + 1, q1 + 1) =~= Seq::<u8>::empty());
    }
    while k < q2
        invariant
            q1 + 1 <= k <= q2 <= line@.len(),
            out@ == line@.subrange(q1 + 1, k as int),
        decreases q2 - k,
    {
        out.push(line[k]);
        proof {
            assert(line@.subrange(q1 + 1, k + 1) =~= line@.subrange(q1 + 1, k as int).push(
                line@[k as int],
            ));
        }
        k = k + 1;
    }
    Some(out)
}

/// A line with one trailing carriage return removed, as when the line was
/// ended by a carriage return and line feed pair.
pub open spec fn strip_cr(l: Seq<u8>) -> Seq<u8> {
    if l.len() > 0 && l.last() == 13 {
        l.drop_last()
    } else {
        l
    }
}

/// The lines of `s` from position `i` on: segments split at line feed
/// bytes, each with a trailing carriage return removed; the final line
/// ending is optional and a last segment without one is kept as it is.
pub open spec fn lines_from(s: Seq<u8>, i: int) -> Seq<Seq<u8>>
    decreases s.len() - i when 0 <= i <= s.len() via lines_from_decreases
{
    if i >= s.len() {
        Seq::empty()
    } else {
        let j = find_from(s, i, 10);
        if j < 0 {
            seq![s.subrange(i, s.len() as int)]
        } else {
            seq![strip_cr(s.subrange(i, j))] + lines_from(s, j + 1)
        }
    }
}

#[via_fn]
proof fn lines_from_decreases(s: Seq<u8>, i: int) {
    if 0 <= i < s.len() {
        lemma_find_from_props(s, i, 10);
    }
}

/// The bytes of `v` from `a` up to `b`.
fn copy_range(v: &Vec<u8>, a: usize, b: usize) -> (r: Vec<u8>)
    requires
        a <= b <= v@.len(),
    ensures
        r@ == v@.subrange(a as int, b as int),
{
    let mut out: Vec<u8> = Vec::new();
    let mut k = a;
    proof {
        assert(v@.subrange(a as int, a as int) =~= Seq::<u8>::empty());
    }
    while k < b
        invariant
            a <= k <= b <= v@.len(),
            out@ == v@.subrange(a as int, k as int),
        decreases b - k,
    {
        out.push(v[k]);
        proof {
            assert(v@.subrange(a as int, k + 1) =~= v@.subrange(a as int, k as int).push(
                v@[k as int],
            ));
        }
        k = k + 1;
    }
    out
}

/// Splits captured output into lines: segments at line feed bytes, each
/// with a trailing carriage return removed, the final line ending optional.
pub fn split_lines(bytes: &Vec<u8>) -> (r: Vec<Vec<u8>>)
    ensures
        r.deep_view() == lines_from(bytes@, 0),
{
    let mut out: Vec<Vec<u8>> = Vec::new();
    let mut start: usize = 0;
    let n = bytes.len();
    while start < n
        invariant
            start <= n,
            n == bytes@.len(),
            out.deep_view() + lines_from(bytes@, start as int) == lines_from(bytes@, 0),
        decreases n - start,
    {
        let ghost prefix = out.deep_view();
        match find_byte_from(bytes, start, 10) {
            Some(j) => {
                let end = if j > start && bytes[j - 1] == 13 {
                    j - 1
                } else {
                    j
                };
                let line = copy_range(bytes, start, end);
                proof {
                    assert(line@ =~= strip_cr(bytes@.subrange(start as int, j as int)));
                }
                out.push(line);
                proof {
                    assert(out.deep_view() =~~= prefix.push(line@));
                    assert(prefix.push(line@) + lines_from(bytes@, j + 1) =~= prefix + lines_from(
                        bytes@,
                        start as int,
                    ));
                }
                start = j + 1;
            },
            None => {
                let line = copy_range(bytes, start, n);
                out.push(line);
                proof {
                    assert(out.deep_view() =~~= prefix.push(line@));
                    assert(prefix.push(line@) =~= prefix + lines_from(bytes@, start as int));
                    assert(lines_from(bytes@, n as int) =~= Seq::<Seq<u8>>::empty());
                }
                start = n;
            },
        }
    }
    proof {
        assert(out.deep_view() + lines_from(bytes@, start as int) =~~= out.deep_view());
    }
    out
}

/// The needle `version` as bytes.
pub open spec fn version_needle() -> Seq<u8> {
    seq![118u8, 101u8, 114u8, 115u8, 105u8, 111u8, 110u8]
}

/// The needle occurs in `s` starting at offset `i`.
pub open spec fn matches_at(s: Seq<u8>, needle: Seq<u8>, i: int) -> bool {
    0 <= i && i + needle.len() <= s.len() && s.subrange(i, i + needle.len()) == needle
}

/// The needle occurs somewhere in `s`.
pub open spec fn contains_needle(s: Seq<u8>, needle: Seq<u8>) -> bool {
    exists|i: int| matches_at(s, needle, i)
}

/// Whether the line mentions `version`.
pub fn mentions_version(line: &Vec<u8>) -> (r: bool)
    ensures
        r == contains_needle(line@, version_needle()),
{
    let n = line.len();
    let mut i: usize = 0;
    while i < n && n - i >= 7
        invariant
            i <= n,
            n == line@.len(),
            forall|j: int| j < i ==> !matches_at(line@, version_needle(), j),
        decreases n - i,
    {
        let m = line[i] == 118 && line[i + 1] == 101 && line[i + 2] == 114 && line[i + 3] == 115
            && line[i + 4] == 105 && line[i + 5] == 111 && line[i + 6] == 110;
        proof {
            if m {
                assert(line@.subrange(i as int, i as int + 7) =~= version_needle());
                assert(matches_at(line@, version_needle(), i as int));
            } else {
                assert(!matches_at(line@, version_needle(), i as int)) by {
                    if matches_at(line@, version_needle(), i as int) {
                        let sub = line@.subrange(i as int, i as int + 7);
                        assert(sub == version_needle());
                        assert(sub[0] == line@[i as int]);
                        assert(sub[1] == line@[i as int + 1]);
                        assert(sub[2] == line@[i as int + 2]);
                        assert(sub[3] == line@[i as int + 3]);
                        assert(sub[4] == line@[i as int + 4]);
                        assert(sub[5] == line@[i as int + 5]);
                        assert(sub[6] == line@[i as int + 6]);
                    }
                }
            }
        }
        if m {
            return true;
        }
        i = i + 1;
    }
    proof {
        assert(forall|j: int| !matches_at(line@, version_needle(), j));
    }
    false
}

/// What one output line yields: the first quoted value of the first line
/// that mentions `version`.
pub open spec fn version_of_line(line: Seq<u8>) -> Option<Seq<u8>> {
    if contains_needle(line, version_needle()) {
        quoted_of(line)
    } else {
        None
    }
}

/// The version the output lines yield, from line `i` on: the first line
/// that mentions `version` and carries a quoted value decides.
pub open spec fn version_from(lines: Seq<Vec<u8>>, i: int) -> Option<Seq<u8>>
    decreases lines.len() - i when 0 <= i <= lines.len()
{
    if i < 0 || i >= lines.len() {
        None
    } else {
        match version_of_line(lines[i]@) {
            Some(v) => Some(v),
            None => version_from(lines, i + 1),
        }
    }
}

/// The version the captured output yields.
pub open spec fn version_of_lines(lines: Seq<Vec<u8>>) -> Option<Seq<u8>> {
    version_from(lines, 0)
}

/// Parses one line: its first quoted value, if the line mentions `version`.
pub fn parse_version_line(line: &Vec<u8>) -> (r: Option<Vec<u8>>)
    ensures
        r is Some <==> version_of_line(line@) is Some,
        r matches Some(v) ==> version_of_line(line@) == Some(v@),
{
    if mentions_version(line) {
        extract_quoted(line)
    } else {
        None
    }
}

/// Parses the captured output of `java -version`: the first quoted value on
/// the first line that mentions `version`, or nothing when no line does.
pub fn parse_version_output(lines: &Vec<Vec<u8>>) -> (r: Option<Vec<u8>>)
    ensures
        r is Some <==> version_of_lines(lines@) is Some,
        r matches Some(v) ==> version_of_lines(lines@) == Some(v@),
{
    let n = lines.len();
    let mut i: usize = 0;
    while i < n
        invariant
            i <= n,
            n == lines@.len(),
            version_from(lines@, 0) == version_from(lines@, i as int),
        decreases n - i,
    {
        let r = parse_version_line(&lines[i]);
        match r {
            Some(v) => {
                return Some(v);
            },
            None => {},
        }
        i = i + 1;
    }
    None
}

} // verus!
