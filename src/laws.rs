//! Properties of the emitter that hold for every input.
use vstd::prelude::*;

use crate::args::{request_of, ArgValue};
use crate::emitter::{plan_matches, target_of, WritePlan};
use crate::error::SaveError;
use crate::path::{has_parent_ref, sandboxed};
use crate::payload::payload_bytes;

verus! {

/// The segments of a path between its `/` separators, in order, empty ones
/// included (a path without `/` is one segment).
pub open spec fn segments(p: Seq<char>) -> Seq<Seq<char>>
    decreases p.len(),
{
    if p.len() == 0 {
        seq![Seq::<char>::empty()]
    } else {
        let s = segments(p.drop_last());
        if p.last() == '/' {
            s.push(Seq::<char>::empty())
        } else {
            s.update(s.len() - 1, s.last().push(p.last()))
        }
    }
}

/// A segment that names a directory entry: neither empty nor `.`.
pub open spec fn is_named(s: Seq<char>) -> bool {
    s.len() > 0 && s != seq!['.']
}

/// The directory entries that a path passes through, in order.
pub open spec fn named_segments(p: Seq<char>) -> Seq<Seq<char>> {
    segments(p).filter(|s: Seq<char>| is_named(s))
}

/// Two paths name the same place: both or neither start at the filesystem
/// root, and they pass through the same entries (empty and `.` segments name
/// none).
pub open spec fn same_location(a: Seq<char>, b: Seq<char>) -> bool {
    &&& (a.len() > 0 && a[0] == '/') == (b.len() > 0 && b[0] == '/')
    &&& named_segments(a) == named_segments(b)
}

proof fn lemma_segments_nonempty(p: Seq<char>)
    ensures
        segments(p).len() >= 1,
    decreases p.len(),
{
    if p.len() > 0 {
        lemma_segments_nonempty(p.drop_last());
    }
}

proof fn lemma_segments_split(a: Seq<char>, b: Seq<char>)
    ensures
        segments(a + seq!['/'] + b) == segments(a) + segments(b),
    decreases b.len(),
{
    let x = a + seq!['/'] + b;
    lemma_segments_nonempty(a);
    if b.len() == 0 {
        assert(x.drop_last() =~= a);
        assert(segments(x) =~= segments(a) + segments(b));
    } else {
        let b1 = b.drop_last();
        assert(x.drop_last() =~= a + seq!['/'] + b1);
        lemma_segments_split(a, b1);
        lemma_segments_nonempty(b1);
        assert(segments(x) =~= segments(a) + segments(b));
    }
}

proof fn lemma_named_split(a: Seq<char>, b: Seq<char>)
    ensures
        named_segments(a + seq!['/'] + b) == named_segments(a) + named_segments(b),
{
    lemma_segments_split(a, b);
    Seq::filter_distributes_over_add(segments(a), segments(b), |s: Seq<char>| is_named(s));
}

/// The entries that a root contributes to a relative path joined onto it.
spec fn root_entries(root: Seq<char>) -> Seq<Seq<char>> {
    if root.len() == 0 {
        Seq::empty()
    } else if root.last() == '/' {
        named_segments(root.drop_last())
    } else {
        named_segments(root)
    }
}

proof fn lemma_named_joined(root: Seq<char>, x: Seq<char>)
    requires
        !(x.len() > 0 && x[0] == '/'),
    ensures
        named_segments(crate::path::joined(root, x)) == root_entries(root) + named_segments(x),
        (crate::path::joined(root, x).len() > 0 && crate::path::joined(root, x)[0] == '/') == (
        root.len() > 0 && root[0] == '/'),
{
    let j = crate::path::joined(root, x);
    if root.len() == 0 {
        assert(j =~= x);
        assert(named_segments(j) =~= Seq::<Seq<char>>::empty() + named_segments(x));
    } else if root.last() == '/' {
        let r1 = root.drop_last();
        assert(j =~= r1 + seq!['/'] + x);
        lemma_named_split(r1, x);
    } else {
        assert(j =~= root + seq!['/'] + x);
        lemma_named_split(root, x);
    }
}

/// The segments of a sandboxed path, beside those of the path itself.
proof fn lemma_named_sandboxed(q: Seq<char>)
    ensures
        named_segments(sandboxed(seq!['/'] + q)) == named_segments(sandboxed(q)),
        !(sandboxed(q).len() > 0 && sandboxed(q)[0] == '/'),
        !(sandboxed(seq!['/'] + q).len() > 0 && sandboxed(seq!['/'] + q)[0] == '/'),
{
    let dot = seq!['.'];
    assert(named_segments(dot) =~= Seq::<Seq<char>>::empty()) by {
        let e = Seq::<char>::empty();
        assert(dot.drop_last() =~= e);
        assert(segments(e) == seq![e]);
        assert(e.push('.') =~= dot);
        assert(segments(dot) =~= seq![dot]);
        reveal_with_fuel(Seq::filter, 2);
    }
    assert(named_segments(Seq::<char>::empty()) =~= Seq::<Seq<char>>::empty()) by {
        reveal_with_fuel(Seq::filter, 2);
    }
    assert(sandboxed(seq!['/'] + q) =~= dot + seq!['/'] + q);
    lemma_named_split(dot, q);
    assert(named_segments(dot + seq!['/'] + q) =~= named_segments(q));
    if q.len() > 0 && q[0] == '/' {
        let rest = q.drop_first();
        assert(q =~= Seq::<char>::empty() + seq!['/'] + rest);
        assert(sandboxed(q) =~= dot + seq!['/'] + rest);
        lemma_named_split(dot, rest);
        lemma_named_split(Seq::<char>::empty(), rest);
        assert(named_segments(q) =~= named_segments(rest));
    }
}

/// A path that starts with `/` names the same file below the root as the
/// same path without that `/`, read as relative.
pub proof fn leading_slash_stays_below_root(root: Seq<char>, q: Seq<char>)
    ensures
        same_location(target_of(root, seq!['/'] + q), target_of(root, q)),
{
    lemma_named_sandboxed(q);
    let x1 = sandboxed(seq!['/'] + q);
    let x2 = sandboxed(q);
    lemma_named_joined(root, x1);
    lemma_named_joined(root, x2);
}

/// A call whose path holds no `/..` and does not start with `/`, and that
/// yields a plan, writes to the output root joined with that path.
pub proof fn relative_path_lands_below_root(
    root: Seq<char>,
    entries: Seq<(String, ArgValue)>,
    r: Result<WritePlan, SaveError>,
)
    requires
        plan_matches(root, entries, r),
        r is Ok,
    ensures
        request_of(entries) is Ok,
        !has_parent_ref(request_of(entries)->Ok_0.0),
        r->Ok_0.target.absolute_path@ == target_of(root, request_of(entries)->Ok_0.0),
        !(request_of(entries)->Ok_0.0.len() > 0 && request_of(entries)->Ok_0.0[0] == '/')
            ==> r->Ok_0.target.absolute_path@ == crate::path::joined(
            root,
            request_of(entries)->Ok_0.0,
        ),
{
}

/// A path that holds `/..` is refused with `PathSecurity`, and no plan comes
/// back, so nothing is created.
pub proof fn parent_reference_is_refused(
    root: Seq<char>,
    entries: Seq<(String, ArgValue)>,
    r: Result<WritePlan, SaveError>,
)
    requires
        plan_matches(root, entries, r),
        request_of(entries) is Ok,
        has_parent_ref(request_of(entries)->Ok_0.0),
    ensures
        r == Err::<WritePlan, _>(SaveError::PathSecurity),
{
}

/// Two calls with the same path write to the same file, and what the second
/// writes is its own payload, so the file ends up holding the second call's data.
pub proof fn same_path_overwrites(
    root: Seq<char>,
    first: Seq<(String, ArgValue)>,
    second: Seq<(String, ArgValue)>,
    r1: Result<WritePlan, SaveError>,
    r2: Result<WritePlan, SaveError>,
)
    requires
        plan_matches(root, first, r1),
        plan_matches(root, second, r2),
        request_of(first) is Ok,
        request_of(second) is Ok,
        request_of(first)->Ok_0.0 == request_of(second)->Ok_0.0,
        r1 is Ok,
        r2 is Ok,
    ensures
        r1->Ok_0.target.absolute_path@ == r2->Ok_0.target.absolute_path@,
        r1->Ok_0.target.parent_directory@ == r2->Ok_0.target.parent_directory@,
        payload_bytes(request_of(second)->Ok_0.1, request_of(second)->Ok_0.2) == Some(
            r2->Ok_0.contents@,
        ),
{
}

/// A missing or wrongly typed `path` is reported as an argument error naming
/// `path`; with a good `path`, a missing or wrongly typed `data` as one naming
/// `data`; and a base64 payload that does not decode as an encoding error,
/// with no plan, so no file is written.
pub proof fn missing_arguments_and_bad_payloads(
    root: Seq<char>,
    entries: Seq<(String, ArgValue)>,
    r: Result<WritePlan, SaveError>,
)
    requires
        plan_matches(root, entries, r),
    ensures
        crate::args::string_arg(crate::args::lookup(entries, "path"@)) is None ==> (r matches Err(
            SaveError::Argument(n),
        ) && n@ == "path"@),
        crate::args::string_arg(crate::args::lookup(entries, "path"@)) is Some
            && crate::args::string_arg(crate::args::lookup(entries, "data"@)) is None ==> (r matches Err(
            SaveError::Argument(n),
        ) && n@ == "data"@),
        request_of(entries) matches Ok((p, d, b)) && !has_parent_ref(p) && parent_of_target_exists(
            root,
            p,
        ) && b && crate::payload::standard_decoded(vstd::utf8::encode_utf8(d)) is None
            ==> r matches Err(SaveError::Encoding(_)),
{
}

/// The file that `path` names below `root` has a parent directory.
pub open spec fn parent_of_target_exists(root: Seq<char>, path: Seq<char>) -> bool {
    crate::path::parent_of(target_of(root, path)) is Some
}

} // verus!
