use vstd::prelude::*;
use vstd::std_specs::iter::IteratorSpec;
use vstd::string::StringExecFns;

use crate::error::SaveError;

verus! {

/// The characters of a path, in order.
pub fn chars_of(s: &str) -> (r: Vec<char>)
    ensures
        r@ == s@,
{
    broadcast use vstd::string::group_string_axioms;

    let mut it = s.chars();
    let mut out: Vec<char> = Vec::new();
    loop
        invariant
            it.obeys_prophetic_iter_laws(),
            it.decrease() is Some,
            out@ + it.remaining() == s@,
        decreases it.decrease()->0,
    {
        let ghost before = it.remaining();
        match it.next() {
            Some(c) => {
                out.push(c);
                assert(out@ + it.remaining() =~= s@) by {
                    assert(before =~= seq![c] + it.remaining());
                }
            },
            None => {
                assert(out@ =~= s@);
                return out;
            },
        }
    }
}

/// The parent-directory segment `/..` starts at position `i` of `p`.
pub open spec fn parent_ref_at(p: Seq<char>, i: int) -> bool {
    0 <= i && i + 3 <= p.len() && p[i] == '/' && p[i + 1] == '.' && p[i + 2] == '.'
}

/// `p` holds the substring `/..` somewhere.
pub open spec fn has_parent_ref(p: Seq<char>) -> bool {
    exists|i: int| parent_ref_at(p, i)
}

/// Whether `path` holds the substring `/..`.
pub fn contains_parent_ref(path: &str) -> (r: bool)
    ensures
        r == has_parent_ref(path@),
{
    let cs = chars_of(path);
    let n = cs.len();
    let mut i: usize = 0;
    while i < n && n - i >= 3
        invariant
            n == cs@.len(),
            i <= n,
            cs@ == path@,
            forall|j: int| 0 <= j < i ==> !parent_ref_at(path@, j),
        decreases n - i,
    {
        if cs[i] == '/' && cs[i + 1] == '.' && cs[i + 2] == '.' {
            assert(parent_ref_at(path@, i as int));
            return true;
        }
        i = i + 1;
    }
    assert forall|j: int| !parent_ref_at(path@, j) by {
        if 0 <= j && j + 3 <= n {
            assert(j < i);
        }
    }
    false
}

/// A path that starts with `/` is read as relative to the output root: a `.`
/// goes in front of it. Any other path is kept.
pub open spec fn sandboxed(p: Seq<char>) -> Seq<char> {
    if p.len() > 0 && p[0] == '/' {
        seq!['.'] + p
    } else {
        p
    }
}

/// `rel` joined onto `root`: a path that starts with `/` replaces the root;
/// otherwise a `/` separates the two unless the root is empty or already ends
/// with one.
pub open spec fn joined(root: Seq<char>, rel: Seq<char>) -> Seq<char> {
    if rel.len() > 0 && rel[0] == '/' {
        rel
    } else if root.len() == 0 || root.last() == '/' {
        root + rel
    } else {
        root + seq!['/'] + rel
    }
}

/// The path rewritten to stay below the output root, or `PathSecurity` when it
/// holds `/..`.
pub fn sandbox_path(path: &str) -> (r: Result<String, SaveError>)
    ensures
        has_parent_ref(path@) <==> r is Err,
        r is Err ==> r == Err::<String, _>(SaveError::PathSecurity),
        r matches Ok(s) ==> s@ == sandboxed(path@),
{
    if contains_parent_ref(path) {
        return Err(SaveError::PathSecurity);
    }
    let cs = chars_of(path);
    if cs.len() > 0 && cs[0] == '/' {
        let mut s = ".".to_owned();
        s.append(path);
        proof {
            reveal_strlit(".");
            assert(s@ =~= sandboxed(path@));
        }
        Ok(s)
    } else {
        Ok(path.to_owned())
    }
}

/// `rel` joined onto `root`.
pub fn join_path(root: &str, rel: &str) -> (r: String)
    ensures
        r@ == joined(root@, rel@),
{
    let rc = chars_of(rel);
    if rc.len() > 0 && rc[0] == '/' {
        return rel.to_owned();
    }
    let oc = chars_of(root);
    let mut s = root.to_owned();
    if oc.len() > 0 && oc[oc.len() - 1] != '/' {
        s.append("/");
        proof {
            reveal_strlit("/");
        }
    }
    s.append(rel);
    proof {
        assert(s@ =~= joined(root@, rel@));
    }
    s
}

/// The parent directory of a path, as `std::path::Path::parent` gives it;
/// `None` for a path that ends in a root or is empty.
pub uninterp spec fn parent_of(p: Seq<char>) -> Option<Seq<char>>;

/// Relies on `std::path::Path::parent`: the parent depends on the path's text alone.
#[verifier::external_body]
fn parent_dir(p: &str) -> (r: Option<String>)
    ensures
        match r {
            Some(d) => parent_of(p@) == Some(d@),
            None => parent_of(p@) is None,
        },
{
    std::path::Path::new(p).parent().map(|d| d.to_string_lossy().into_owned())
}

/// Where a write lands: the file and the directory that must exist for it.
#[derive(Debug, Clone, PartialEq, Eq)]
pub struct ResolvedTarget {
    pub absolute_path: String,
    pub parent_directory: String,
}

/// The target of a path below `root`, or why there is none: `PathSecurity`
/// for a path that holds `/..`, `Io` when the joined path has no parent.
pub fn resolve(root: &str, path: &str) -> (r: Result<ResolvedTarget, SaveError>)
    ensures
        has_parent_ref(path@) ==> r == Err::<ResolvedTarget, _>(SaveError::PathSecurity),
        !has_parent_ref(path@) ==> match r {
            Ok(t) => t.absolute_path@ == joined(root@, sandboxed(path@))
                && parent_of(t.absolute_path@) == Some(t.parent_directory@),
            Err(e) => e is Io && parent_of(joined(root@, sandboxed(path@))) is None,
        },
{
    let rel = match sandbox_path(path) {
        Ok(s) => s,
        Err(e) => return Err(e),
    };
    let absolute_path = join_path(root, rel.as_str());
    match parent_dir(absolute_path.as_str()) {
        Some(parent_directory) => Ok(ResolvedTarget { absolute_path, parent_directory }),
        None => Err(SaveError::Io("the destination has no parent directory".to_owned())),
    }
}

} // verus!
