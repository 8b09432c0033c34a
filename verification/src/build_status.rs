//! The outcome of one build, as it is reported to the client.

use vstd::prelude::*;
use crate::encoding::{base64_text, Base64Encoded};

verus! {

/// The captured output streams of one toolchain run, base64 encoded.
#[derive(Debug, Clone)]
pub struct WebpackOutputs {
    /// Captured standard output. Can be shown to the client.
    pub stdout: Base64Encoded,
    /// Captured standard error. Can be shown to the client.
    pub stderr: Base64Encoded,
}

/// The two texts of a [`WebpackOutputs`].
pub struct OutputsView {
    pub stdout: Seq<char>,
    pub stderr: Seq<char>,
}

impl View for WebpackOutputs {
    type V = OutputsView;

    open spec fn view(&self) -> OutputsView {
        OutputsView { stdout: self.stdout@, stderr: self.stderr@ }
    }
}

/// The texts that stand for a pair of raw output streams.
pub open spec fn encoded_outputs(stdout: Seq<u8>, stderr: Seq<u8>) -> OutputsView {
    OutputsView { stdout: base64_text(stdout), stderr: base64_text(stderr) }
}

impl WebpackOutputs {
    /// Encodes a pair of raw output streams.
    pub fn capture(stdout: &[u8], stderr: &[u8]) -> (outputs: WebpackOutputs)
        ensures
            outputs@ == encoded_outputs(stdout@, stderr@),
            outputs.stdout.payload() == Some(stdout@),
            outputs.stderr.payload() == Some(stderr@),
    {
        WebpackOutputs { stdout: Base64Encoded::create(stdout), stderr: Base64Encoded::create(stderr) }
    }
}

/// The result of a build.
///
/// Defaults to [`BuildStatus::LowLevelError`], the value reported whenever an
/// internal fault must not take the session down.
#[derive(Debug, Clone)]
pub enum BuildStatus {
    /// The submitted files are unsafe or malformed; the message is meant for
    /// the client.
    ValidationError { message: String },
    /// The lint tool ran and reported failure.
    LintExit { code: i32, outputs: WebpackOutputs },
    /// The bundler ran and reported failure.
    BuildExit { code: i32, outputs: WebpackOutputs },
    /// An internal fault; details stay on the server.
    LowLevelError,
    /// The build succeeded.
    Success {
        /// The packaged artifacts.
        archive: Base64Encoded,
        /// What the lint tool printed.
        lint_output: WebpackOutputs,
        /// What the bundler printed.
        build_output: WebpackOutputs,
    },
}

/// A [`BuildStatus`] with its texts as sequences.
pub enum StatusView {
    ValidationError { message: Seq<char> },
    LintExit { code: i32, outputs: OutputsView },
    BuildExit { code: i32, outputs: OutputsView },
    LowLevelError,
    Success { archive: Seq<char>, lint_output: OutputsView, build_output: OutputsView },
}

impl View for BuildStatus {
    type V = StatusView;

    open spec fn view(&self) -> StatusView {
        match *self {
            BuildStatus::ValidationError { message } => StatusView::ValidationError {
                message: message@,
            },
            BuildStatus::LintExit { code, outputs } => StatusView::LintExit {
                code,
                outputs: outputs@,
            },
            BuildStatus::BuildExit { code, outputs } => StatusView::BuildExit {
                code,
                outputs: outputs@,
            },
            BuildStatus::LowLevelError => StatusView::LowLevelError,
            BuildStatus::Success { archive, lint_output, build_output } => StatusView::Success {
                archive: archive@,
                lint_output: lint_output@,
                build_output: build_output@,
            },
        }
    }
}

impl Default for BuildStatus {
    fn default() -> (status: BuildStatus)
        ensures
            status == BuildStatus::LowLevelError,
    {
        BuildStatus::LowLevelError
    }
}

} // verus!
