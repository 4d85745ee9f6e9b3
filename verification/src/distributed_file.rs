//! Provenance ledger entries: one record per file that the pipeline copied
//! or synthesized, with the status describing how its bytes were produced.

use crate::text::{chars_to_string, match_at, replace_all, spec_replace_all, str_to_chars, subvec};
use vstd::prelude::*;

verus! {

/// How a distributed file's bytes were produced.
#[derive(Debug, Clone, Copy, PartialEq, Eq, Structural)]
pub enum Status {
    /// A copy whose content was rewritten in transit.
    Modified,
    /// A straight copy of an artifact-native file.
    Unmodified,
    /// Bytes synthesized from package metadata.
    PackageMetadataGenerated,
}

/// The text that the rendered document shows for a status.
pub open spec fn spec_status_text(s: Status) -> Seq<char> {
    match s {
        Status::Modified => "modified"@,
        Status::Unmodified => "unmodified"@,
        Status::PackageMetadataGenerated => "generated from package metadata"@,
    }
}

impl Status {
    /// The status as display text.
    pub fn as_text(&self) -> (r: &'static str)
        ensures
            r@ == spec_status_text(*self),
    {
        match self {
            Status::Modified => "modified",
            Status::Unmodified => "unmodified",
            Status::PackageMetadataGenerated => "generated from package metadata",
        }
    }
}

/// A provenance record: the path a file was distributed under, and how its
/// bytes were produced. Created once per file operation and never mutated.
#[derive(Debug, Clone)]
pub struct DistributedFile {
    pub path: String,
    pub status: Status,
}

impl DistributedFile {
    /// The sole constructor: record `path` with `status`.
    pub fn new(path: String, status: Status) -> (r: DistributedFile)
        ensures
            r.path@ == path@,
            r.status == status,
    {
        DistributedFile { path, status }
    }
}

/// `s` with every backslash turned into a forward slash.
pub open spec fn spec_normalize_slashes(s: Seq<char>) -> Seq<char> {
    spec_replace_all(s, seq!['\\'], seq!['/'])
}

/// The path as the document shows it: slash-normalized, and relative to the
/// document's parent directory when it lies under it.
pub open spec fn spec_rendered_path(path: Seq<char>, base: Seq<char>) -> Seq<char> {
    let p = spec_normalize_slashes(path);
    let b = spec_normalize_slashes(base) + seq!['/'];
    if b.len() <= p.len() && p.subrange(0, b.len() as int) == b {
        p.skip(b.len() as int)
    } else {
        p
    }
}

/// The index of the last occurrence of `c` in `s`, if any.
pub open spec fn spec_rfind(s: Seq<char>, c: char) -> Option<int>
    decreases s.len(),
{
    if s.len() == 0 {
        None
    } else if s[s.len() - 1] == c {
        Some(s.len() - 1)
    } else {
        spec_rfind(s.take(s.len() - 1), c)
    }
}

/// The parent directory of a document path: the slash-normalized path up to
/// its last separator, or empty when it has none.
pub open spec fn spec_parent_dir(p: Seq<char>) -> Seq<char> {
    let n = spec_normalize_slashes(p);
    match spec_rfind(n, '/') {
        None => Seq::empty(),
        Some(i) => n.subrange(0, i),
    }
}

/// The parent directory of a document path.
pub fn parent_dir(p: &str) -> (r: String)
    ensures
        r@ == spec_parent_dir(p@),
{
    let pc = str_to_chars(p);
    let back: Vec<char> = vec!['\\'];
    let fwd: Vec<char> = vec!['/'];
    assert(back@ =~= seq!['\\']);
    assert(fwd@ =~= seq!['/']);
    let n = replace_all(&pc, &back, &fwd);
    let mut j: usize = n.len();
    proof {
        assert(n@.take(n@.len() as int) =~= n@);
    }
    while j > 0 && n[j - 1] != '/'
        invariant
            j <= n@.len(),
            spec_rfind(n@, '/') == spec_rfind(n@.take(j as int), '/'),
        decreases j,
    {
        proof {
            let part = n@.take(j as int);
            assert(part[part.len() - 1] == n@[j - 1]);
            assert(part.take(part.len() - 1) =~= n@.take(j - 1));
        }
        j -= 1;
    }
    if j == 0 {
        proof {
            assert(n@.take(0) =~= Seq::<char>::empty());
        }
        let empty: Vec<char> = Vec::new();
        chars_to_string(&empty)
    } else {
        proof {
            let part = n@.take(j as int);
            assert(part[part.len() - 1] == n@[j - 1]);
            assert(spec_rfind(n@, '/') == Some(j - 1));
            assert(n@.subrange(0, j - 1) =~= n@.take(j as int).subrange(0, j - 1));
        }
        let out = subvec(&n, 0, j - 1);
        chars_to_string(&out)
    }
}

/// Slash-normalize `path` and strip the leading `base` directory, when
/// `path` lies under it.
pub fn rendered_path(path: &str, base: &str) -> (r: Vec<char>)
    ensures
        r@ == spec_rendered_path(path@, base@),
{
    let pc = str_to_chars(path);
    let bc = str_to_chars(base);
    let back: Vec<char> = vec!['\\'];
    let fwd: Vec<char> = vec!['/'];
    assert(back@ =~= seq!['\\']);
    assert(fwd@ =~= seq!['/']);
    let p = replace_all(&pc, &back, &fwd);
    let mut b = replace_all(&bc, &back, &fwd);
    b.push('/');
    assert(b@ == spec_normalize_slashes(base@) + seq!['/']);
    if b.len() <= p.len() && match_at(&p, &b, 0) {
        let mut out: Vec<char> = Vec::new();
        let mut i: usize = b.len();
        while i < p.len()
            invariant
                b@.len() <= i <= p@.len(),
                out@ == p@.subrange(b@.len() as int, i as int),
            decreases p@.len() - i,
        {
            out.push(p[i]);
            assert(p@.subrange(b@.len() as int, i as int).push(p@[i as int]) =~= p@.subrange(
                b@.len() as int,
                i + 1,
            ));
            i += 1;
        }
        assert(out@ =~= p@.skip(b@.len() as int));
        assert(p@.subrange(0, b@.len() as int) == b@);
        out
    } else {
        p
    }
}

} // verus!
