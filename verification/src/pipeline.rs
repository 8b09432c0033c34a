//! The build pipeline: stage a working tree, validate and extract the
//! context, lint, build, package.
//!
//! The pipeline decides; its caller acts. Each [`Action`] names one piece of
//! outside work (copying the template tree, writing files, running a tool,
//! reading the output directory). The caller performs it and reports the
//! result as an [`Event`]; the pipeline answers with the next action or with
//! the terminal [`BuildStatus`]. A finished pipeline is consumed, so one build
//! yields exactly one status.

use vstd::prelude::*;
use vstd::string::*;
use crate::build_context::{
    extractable,
    lemma_no_offender_means_all_safe,
    offending_paths,
    plans_file,
    BuildContext,
    Files,
    PlannedFile,
};
use crate::build_status::{encoded_outputs, BuildStatus, OutputsView, StatusView, WebpackOutputs};
use crate::builder::{build_command, build_command_line, lint_command, lint_command_line, SOURCE_DIR};
use crate::distribution::{create_distribution, distribution, is_invalid_text, OutputFile};
use crate::encoding::{base64_text, Base64Encoded};
use crate::paths::{join, joined};
use crate::sandbox::ExecutionResult;

verus! {

/// How a validation error's message begins.
pub const TRAVERSAL_NOTICE: &'static str = "Possible path traversal attack detected.";

/// The outside work the pipeline asks for.
#[derive(Debug)]
pub enum Action {
    /// Copy the template project into a fresh, unique working directory.
    StageTree,
    /// Create these files; each must not exist yet.
    Extract(Vec<PlannedFile>),
    /// Run the lint tool with this command line through the sandbox executor.
    RunLint(Vec<String>),
    /// Run the bundler with this command line through the sandbox executor.
    RunBuild(Vec<String>),
    /// Read the top-level files of the bundler's output directory.
    Package,
}

/// What the outside work came to.
#[derive(Debug)]
pub enum Event {
    /// The working tree stands at this path.
    Staged { working_dir: String },
    /// The files were created.
    Extracted,
    /// The tool ran and ended.
    Exited(ExecutionResult),
    /// The output directory held these files.
    Collected(Vec<OutputFile>),
    /// The work failed: an I/O fault, or a process that could not be started.
    Fault,
}

/// What the pipeline waits for.
#[derive(Debug)]
pub enum Stage {
    /// The working tree is being staged.
    Staging,
    /// The context's files are being written.
    Extracting,
    /// The lint tool runs.
    Linting,
    /// The bundler runs; the lint tool's output is kept.
    Building { lint_output: WebpackOutputs },
    /// The output is being collected; both tools' outputs are kept.
    Packaging { lint_output: WebpackOutputs, build_output: WebpackOutputs },
}

/// A [`Stage`] with its texts as sequences.
pub enum StageView {
    Staging,
    Extracting,
    Linting,
    Building { lint_output: OutputsView },
    Packaging { lint_output: OutputsView, build_output: OutputsView },
}

impl View for Stage {
    type V = StageView;

    open spec fn view(&self) -> StageView {
        match *self {
            Stage::Staging => StageView::Staging,
            Stage::Extracting => StageView::Extracting,
            Stage::Linting => StageView::Linting,
            Stage::Building { lint_output } => StageView::Building { lint_output: lint_output@ },
            Stage::Packaging { lint_output, build_output } => StageView::Packaging {
                lint_output: lint_output@,
                build_output: build_output@,
            },
        }
    }
}

/// The mathematical state of a pipeline.
pub struct PipelineState {
    /// The files of the build's context.
    pub files: Files,
    /// What the pipeline waits for.
    pub stage: StageView,
}

/// One build in progress.
#[derive(Debug)]
pub struct Pipeline {
    context: BuildContext,
    stage: Stage,
}

impl View for Pipeline {
    type V = PipelineState;

    closed spec fn view(&self) -> PipelineState {
        PipelineState { files: self.context@, stage: self.stage@ }
    }
}

/// The result of one step of the pipeline.
#[derive(Debug)]
pub enum Progress {
    /// Perform `action` and report its result to `pipeline`.
    Next { pipeline: Pipeline, action: Action },
    /// The build has reached its outcome.
    Finished(BuildStatus),
}

/// The offending paths, one per line.
pub open spec fn listing(paths: Seq<Seq<char>>) -> Seq<char>
    decreases paths.len(),
{
    if paths.len() == 0 {
        Seq::empty()
    } else {
        listing(paths.drop_last()) + "\n"@ + paths.last()
    }
}

/// The message of a validation error: the notice, then every offending path
/// on a line of its own.
pub open spec fn validation_message(paths: Seq<Seq<char>>) -> Seq<char> {
    TRAVERSAL_NOTICE@ + listing(paths)
}

/// The directory that receives the context's files.
pub open spec fn source_directory(working_dir: Seq<char>) -> Seq<char> {
    joined(working_dir, SOURCE_DIR@)
}

/// Every file can be written below `root`.
pub open spec fn all_extractable(root: Seq<char>, files: Files) -> bool {
    forall|i: int| 0 <= i < files.len() ==> extractable(root, #[trigger] files[i])
}

/// `plan` writes the files below `root`, one planned file per entry.
pub open spec fn plans_all(root: Seq<char>, files: Files, plan: Seq<PlannedFile>) -> bool {
    &&& plan.len() == files.len()
    &&& forall|i: int| 0 <= i < files.len() ==> plans_file(root, #[trigger] files[i], plan[i])
}

/// The pipeline moves on: it now waits in `stage`, with its files unchanged.
pub open spec fn moves_to(progress: Progress, before: PipelineState, stage: StageView) -> bool {
    progress matches Progress::Next { pipeline, .. } && pipeline@ == (PipelineState {
        files: before.files,
        stage,
    })
}

/// The pipeline ends with a status whose view is `status`.
pub open spec fn ends_with_status(progress: Progress, status: StatusView) -> bool {
    progress matches Progress::Finished(reported) && reported@ == status
}

/// What follows once the working tree stands at `working_dir`: validation
/// against the directory that receives the files, then the plan of the
/// extraction. A context with unsafe paths ends the build with a validation
/// error that lists all of them; a context whose paths are all safe never
/// does. Content that does not decode is a fault of the extraction.
pub open spec fn after_staging(before: PipelineState, working_dir: Seq<char>, progress: Progress) -> bool {
    let target = source_directory(working_dir);
    let offenders = offending_paths(target, before.files);
    if offenders.len() > 0 {
        ends_with_status(
            progress,
            StatusView::ValidationError { message: validation_message(offenders) },
        )
    } else if all_extractable(target, before.files) {
        &&& moves_to(progress, before, StageView::Extracting)
        &&& progress matches Progress::Next { action: Action::Extract(plan), .. }
        &&& plans_all(target, before.files, plan@)
    } else {
        ends_with_status(progress, StatusView::LowLevelError)
    }
}

/// What follows once the lint tool has ended.
pub open spec fn after_lint(before: PipelineState, result: ExecutionResult, progress: Progress) -> bool {
    let outputs = encoded_outputs(result.stdout@, result.stderr@);
    if result.exit_code != 0 {
        ends_with_status(progress, StatusView::LintExit { code: result.exit_code, outputs })
    } else {
        &&& moves_to(progress, before, StageView::Building { lint_output: outputs })
        &&& progress matches Progress::Next { action: Action::RunBuild(argv), .. }
        &&& argv.deep_view() == build_command_line()
    }
}

/// What follows once the bundler has ended.
pub open spec fn after_build(
    before: PipelineState,
    lint_output: OutputsView,
    result: ExecutionResult,
    progress: Progress,
) -> bool {
    let outputs = encoded_outputs(result.stdout@, result.stderr@);
    if result.exit_code != 0 {
        ends_with_status(progress, StatusView::BuildExit { code: result.exit_code, outputs })
    } else {
        &&& moves_to(progress, before, StageView::Packaging { lint_output, build_output: outputs })
        &&& progress matches Progress::Next { action: Action::Package, .. }
    }
}

/// What follows once the output directory has been read.
pub open spec fn after_collecting(
    lint_output: OutputsView,
    build_output: OutputsView,
    files: Seq<OutputFile>,
    progress: Progress,
) -> bool {
    if exists|i: int| 0 <= i < files.len() && is_invalid_text(#[trigger] files[i]) {
        ends_with_status(progress, StatusView::LowLevelError)
    } else {
        ends_with_status(
            progress,
            StatusView::Success {
                archive: base64_text(distribution(files)),
                lint_output,
                build_output,
            },
        )
    }
}

/// The pipeline's whole transition relation: what `progress` must be when
/// `event` arrives in state `before`. An event that does not answer the
/// action the pipeline asked for, a fault among them, ends the build with a
/// low-level error.
pub open spec fn follows(before: PipelineState, event: Event, progress: Progress) -> bool {
    match (before.stage, event) {
        (StageView::Staging, Event::Staged { working_dir }) => after_staging(
            before,
            working_dir@,
            progress,
        ),
        (StageView::Extracting, Event::Extracted) => {
            &&& moves_to(progress, before, StageView::Linting)
            &&& progress matches Progress::Next { action: Action::RunLint(argv), .. }
            &&& argv.deep_view() == lint_command_line(before.files)
        },
        (StageView::Linting, Event::Exited(result)) => after_lint(before, result, progress),
        (StageView::Building { lint_output }, Event::Exited(result)) => after_build(
            before,
            lint_output,
            result,
            progress,
        ),
        (StageView::Packaging { lint_output, build_output }, Event::Collected(files)) => {
            after_collecting(lint_output, build_output, files@, progress)
        },
        _ => ends_with_status(progress, StatusView::LowLevelError),
    }
}

/// A context is answered with a validation error exactly if one of its paths
/// is unsafe below the directory that receives the files. The build then
/// ends at once: nothing is extracted and no tool runs. The message is the
/// notice followed by every unsafe path, and by no other.
pub proof fn lemma_validation_error_exactly_for_unsafe_contexts(
    before: PipelineState,
    working_dir: String,
    progress: Progress,
)
    requires
        before.stage == StageView::Staging,
        follows(before, Event::Staged { working_dir }, progress),
    ensures
        ({
            let offenders = offending_paths(source_directory(working_dir@), before.files);
            &&& offenders.len() > 0 <==> (progress matches Progress::Finished(status) && status@
                is ValidationError)
            &&& offenders.len() > 0 ==> ends_with_status(
                progress,
                StatusView::ValidationError { message: validation_message(offenders) },
            )
        }),
{
}

/// A fault never goes unanswered and never goes further: whatever the
/// pipeline waits for, a fault ends the build with a low-level error.
pub proof fn lemma_faults_end_the_build(before: PipelineState, progress: Progress)
    requires
        follows(before, Event::Fault, progress),
    ensures
        progress matches Progress::Finished(status) && status@ == StatusView::LowLevelError,
{
}

/// Builds the message of a validation error.
fn describe(offenders: &Vec<String>) -> (message: String)
    ensures
        message@ == validation_message(offenders.deep_view()),
{
    let mut message = TRAVERSAL_NOTICE.to_owned();
    let n = offenders.len();
    let mut i: usize = 0;
    while i < n
        invariant
            n == offenders@.len(),
            i <= n,
            message@ == validation_message(offenders.deep_view().take(i as int)),
        decreases n - i,
    {
        assert(offenders.deep_view().take(i + 1).drop_last() == offenders.deep_view().take(
            i as int,
        ));
        message.append("\n");
        message.append(offenders[i].as_str());
        i = i + 1;
    }
    assert(offenders.deep_view().take(n as int) == offenders.deep_view());
    message
}

impl Pipeline {
    /// Begins the build of `context`. The first piece of outside work is
    /// always the staging of the working tree.
    pub fn start(context: BuildContext) -> (progress: Progress)
        ensures
            progress matches Progress::Next { pipeline, action: Action::StageTree }
                && pipeline@ == (PipelineState { files: context@, stage: StageView::Staging }),
    {
        Progress::Next { pipeline: Pipeline { context, stage: Stage::Staging }, action: Action::StageTree }
    }

    /// Takes the result of the outside work and decides what comes next.
    pub fn advance(self, event: Event) -> (progress: Progress)
        ensures
            follows(self@, event, progress),
    {
        let Pipeline { context, stage } = self;
        match (stage, event) {
            (Stage::Staging, Event::Staged { working_dir }) => {
                let target = join(working_dir.as_str(), SOURCE_DIR);
                let offenders = context.sanitize(target.as_str());
                if offenders.len() > 0 {
                    return Progress::Finished(
                        BuildStatus::ValidationError { message: describe(&offenders) },
                    );
                }
                proof {
                    lemma_no_offender_means_all_safe(target@, context@);
                }
                match context.extraction_plan(target.as_str()) {
                    Ok(plan) => Progress::Next {
                        pipeline: Pipeline { context, stage: Stage::Extracting },
                        action: Action::Extract(plan),
                    },
                    Err(_) => Progress::Finished(BuildStatus::LowLevelError),
                }
            },
            (Stage::Extracting, Event::Extracted) => {
                let argv = lint_command(&context);
                Progress::Next {
                    pipeline: Pipeline { context, stage: Stage::Linting },
                    action: Action::RunLint(argv),
                }
            },
            (Stage::Linting, Event::Exited(result)) => {
                let outputs = WebpackOutputs::capture(
                    result.stdout.as_slice(),
                    result.stderr.as_slice(),
                );
                if result.exit_code != 0 {
                    Progress::Finished(BuildStatus::LintExit { code: result.exit_code, outputs })
                } else {
                    Progress::Next {
                        pipeline: Pipeline { context, stage: Stage::Building { lint_output: outputs } },
                        action: Action::RunBuild(build_command()),
                    }
                }
            },
            (Stage::Building { lint_output }, Event::Exited(result)) => {
                let outputs = WebpackOutputs::capture(
                    result.stdout.as_slice(),
                    result.stderr.as_slice(),
                );
                if result.exit_code != 0 {
                    Progress::Finished(BuildStatus::BuildExit { code: result.exit_code, outputs })
                } else {
                    Progress::Next {
                        pipeline: Pipeline {
                            context,
                            stage: Stage::Packaging { lint_output, build_output: outputs },
                        },
                        action: Action::Package,
                    }
                }
            },
            (Stage::Packaging { lint_output, build_output }, Event::Collected(files)) => {
                match create_distribution(&files) {
                    Ok(bytes) => Progress::Finished(
                        BuildStatus::Success {
                            archive: Base64Encoded::create(bytes.as_slice()),
                            lint_output,
                            build_output,
                        },
                    ),
                    Err(_) => Progress::Finished(BuildStatus::LowLevelError),
                }
            },
            _ => Progress::Finished(BuildStatus::LowLevelError),
        }
    }
}

} // verus!
