//! What is known of a program once it has run to its end.

use vstd::prelude::*;

verus! {

/// The observable result of one finished run: both output streams as the
/// raw bytes that were captured, and how the program exited.
#[derive(Debug)]
pub struct ProcessOutput {
    /// Everything the program wrote to standard output.
    pub stdout: Vec<u8>,
    /// Everything the program wrote to standard error.
    pub stderr: Vec<u8>,
    /// Whether the exit status denotes success.
    pub success: bool,
    /// The exit code; `None` where the program ended without one, as when a
    /// signal terminated it.
    pub code: Option<i32>,
}

impl ProcessOutput {
    /// The exit status follows the usual convention: success is exit code
    /// zero, and nothing else.
    pub open spec fn is_conventional(&self) -> bool {
        self.success <==> self.code == Some(0i32)
    }
}

} // verus!
