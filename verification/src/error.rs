use vstd::prelude::*;

verus! {

/// The ways in which an operation of this library, or of the code around it, fails.
#[derive(Clone, Copy, Debug, PartialEq, Eq, Structural)]
pub enum ClipError {
    /// A window, process or file is absent.
    NotFound,
    /// No identity string can be derived for a window.
    ResolutionError,
    /// A file-system step failed, or a path names no usable file.
    IoError,
    /// The source is not a readable image.
    DecodeError,
    /// The interception of the host's sleep toggle could not be set up.
    InstallError,
    /// An operating-system query failed.
    QueryError,
}

} // verus!
