use vstd::prelude::*;

verus! {

/// What one invocation of the tool was asked to do, as plain values.
pub struct Cli {
    /// Root directory that is scanned for MOV files.
    pub input: String,
    /// Destination directory; `None` places each output beside its input.
    pub output: Option<String>,
    /// Scan the whole subtree rather than only the root's direct children.
    pub recursive: bool,
    /// Detailed logging requested.
    pub verbose: bool,
    /// Overwrite destination files that already exist.
    pub force: bool,
}

} // verus!
