use vstd::prelude::*;

verus! {

/// Why a write was refused or failed.
#[derive(Debug, Clone, PartialEq, Eq)]
pub enum SaveError {
    /// A required argument is absent, or an argument has the wrong type; holds its name.
    Argument(String),
    /// The destination path holds the parent-directory segment `/..`.
    PathSecurity,
    /// The payload is not valid base64; holds the decoder's diagnostic.
    Encoding(String),
    /// Creating the directory or writing the file failed; holds the system's text.
    Io(String),
}

} // verus!
