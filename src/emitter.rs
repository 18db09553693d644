use vstd::prelude::*;

use crate::args::{extract_request, request_of, ArgValue, ArgumentBag};
use crate::error::SaveError;
use crate::path::{has_parent_ref, joined, parent_of, resolve, sandboxed, ResolvedTarget};
use crate::payload::{materialize, payload_bytes};

verus! {

/// Writes payloads below one output root, fixed when the emitter is made.
#[derive(Debug, Clone, PartialEq, Eq)]
pub struct SaveAsFile {
    output_path: String,
}

/// One write, ready to be carried out: make `target.parent_directory` (with
/// its parents), then write `contents` to `target.absolute_path`, replacing
/// what is there.
#[derive(Debug, Clone, PartialEq, Eq)]
pub struct WritePlan {
    pub target: ResolvedTarget,
    pub contents: Vec<u8>,
}

/// The file that a path names below `root`.
pub open spec fn target_of(root: Seq<char>, path: Seq<char>) -> Seq<char> {
    joined(root, sandboxed(path))
}

/// The outcome of a call below `root` with the arguments `entries`: what the
/// returned plan holds, as (file, directory, bytes), or which check refused it.
pub open spec fn plan_matches(
    root: Seq<char>,
    entries: Seq<(String, ArgValue)>,
    r: Result<WritePlan, SaveError>,
) -> bool {
    match request_of(entries) {
        Err(name) => r matches Err(SaveError::Argument(n)) && n@ == name,
        Ok((p, d, b)) => if has_parent_ref(p) {
            r == Err::<WritePlan, _>(SaveError::PathSecurity)
        } else {
            match parent_of(target_of(root, p)) {
                None => r matches Err(SaveError::Io(_)),
                Some(dir) => match payload_bytes(d, b) {
                    None => r matches Err(SaveError::Encoding(_)),
                    Some(bytes) => r matches Ok(plan) && plan.target.absolute_path@ == target_of(
                        root,
                        p,
                    ) && plan.target.parent_directory@ == dir && plan.contents@ == bytes,
                },
            }
        },
    }
}

impl SaveAsFile {
    /// The output root.
    pub closed spec fn root(&self) -> Seq<char> {
        self.output_path@
    }

    pub fn new(output_path: String) -> (r: Self)
        ensures
            r.root() == output_path@,
    {
        SaveAsFile { output_path }
    }

    /// The output root.
    pub fn output_path(&self) -> (r: &String)
        ensures
            r@ == self.root(),
    {
        &self.output_path
    }

    /// Reads the arguments, checks and resolves the path below the output
    /// root, and turns the payload into bytes. Nothing is written: a plan is
    /// returned only once every check has passed.
    pub fn plan(&self, args: &ArgumentBag) -> (r: Result<WritePlan, SaveError>)
        ensures
            plan_matches(self.root(), args@, r),
    {
        let req = match extract_request(args) {
            Ok(req) => req,
            Err(e) => return Err(e),
        };
        let target = match resolve(self.output_path.as_str(), req.relative_path.as_str()) {
            Ok(t) => t,
            Err(e) => return Err(e),
        };
        let contents = match materialize(req.payload.as_str(), req.payload_is_base64) {
            Ok(v) => v,
            Err(e) => return Err(e),
        };
        Ok(WritePlan { target, contents })
    }
}

} // verus!
