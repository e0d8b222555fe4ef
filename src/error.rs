//! What a finished process reports, and the two kinds of failure: those of a
//! compilation and those of a version probe.
use vstd::prelude::*;

verus! {

/// std's I/O error, carried through unopened.
#[verifier::external_type_specification]
#[verifier::external_body]
pub struct ExIoError(std::io::Error);

/// semver's parse error, carried through unopened.
#[verifier::external_type_specification]
#[verifier::external_body]
pub struct ExSemverError(semver::Error);

/// What a finished process reported: its exit code, absent when it was ended
/// by a signal, and the bytes it wrote to its standard streams.
#[derive(Clone, Debug)]
pub struct ProcessOutput {
    pub exit_code: Option<i32>,
    pub stdout: Vec<u8>,
    pub stderr: Vec<u8>,
}

impl ProcessOutput {
    /// A process succeeded when it exited with status zero.
    pub open spec fn spec_success(&self) -> bool {
        self.exit_code == Some(0i32)
    }

    /// Whether the process exited with status zero.
    pub fn success(&self) -> (r: bool)
        ensures
            r == self.spec_success(),
    {
        match self.exit_code {
            Some(code) => code == 0,
            None => false,
        }
    }
}

/// Why a compilation failed.
#[derive(Debug)]
pub enum CompileError {
    /// A file-system operation failed.
    IoFailure(std::io::Error),
    /// The toolchain ran and reported failure; its full output is kept.
    ToolchainFailure(ProcessOutput),
}

/// Why the toolchain's version could not be determined.
#[derive(Debug)]
pub enum VersionError {
    /// The toolchain could not be started.
    IoFailure(std::io::Error),
    /// The toolchain ran and exited unsuccessfully.
    InvocationFailed(ProcessOutput),
    /// What the toolchain printed is not UTF-8 text.
    OutputNotText(Vec<u8>),
    /// No line of the output has the shape of a version line.
    PatternNotMatched(String),
    /// The version number in the version line, which is not a well-formed
    /// version, and why semver refused it.
    MalformedVersion(String, semver::Error),
}

} // verus!
