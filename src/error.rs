use vstd::prelude::*;

verus! {

/// The ways in which materializing an environment can fail.
#[derive(Clone, Copy, Debug, PartialEq, Eq, Structural)]
pub enum VenvError {
    /// The version string is not two or more dot-separated decimal integers.
    InvalidVersionFormat,
    /// The source interpreter is missing or not executable.
    InterpreterNotFound,
    /// A path of the environment layout is occupied by something that is not a directory.
    LayoutPathCollision,
    /// The path-list source file is missing or is not UTF-8 text.
    SourceFileUnreadable,
    /// Additional workspace paths were requested without a workspace root.
    WorkspacePathsWithoutRoot,
    /// The site-packages directory does not exist or cannot be written.
    DestinationNotWritable,
}

} // verus!
