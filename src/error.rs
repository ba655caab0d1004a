use vstd::prelude::*;

verus! {

/// The external deployment call that a failure came from.
#[derive(Clone, Copy, PartialEq, Eq, Structural, Debug)]
pub enum DeployStep {
    Open,
    Execute,
    Boot,
    Install,
    Launch,
}

/// Which stage of the pipeline failed.
#[derive(Clone, Copy, PartialEq, Eq, Structural, Debug)]
pub enum ErrorKind {
    ToolchainUnresolved,
    ToolchainAmbiguous,
    ToolchainQueryFailed,
    WriteError,
    AssemblyFailed,
    CompileFailed,
    ManifestWriteFailed { index: usize },
    SigningFailed,
    DeployFailed { step: DeployStep },
}

/// A terminal failure of one run: its stage, and what is known of the cause
/// (a variable name, a path, or the message of the failing tool).
#[derive(Debug, PartialEq, Eq)]
pub struct PipelineError {
    pub kind: ErrorKind,
    pub detail: String,
}

impl View for PipelineError {
    type V = (ErrorKind, Seq<char>);

    open spec fn view(&self) -> (ErrorKind, Seq<char>) {
        (self.kind, self.detail@)
    }
}

impl PipelineError {
    pub fn new(kind: ErrorKind, detail: String) -> (r: PipelineError)
        ensures
            r@ == (kind, detail@),
    {
        PipelineError { kind, detail }
    }
}

} // verus!
