//! The decisions of one compilation. The host owns the file system and the
//! toolchain: it performs each `Step` that a `Compilation` asks for and reports
//! the result back as an `Event`, until the compilation finishes.
//!
//! In order, a compilation creates a temporary file for the source, creates one
//! for the module, writes the source, runs the toolchain once, and reads the
//! module back. Any failed file-system operation finishes it with
//! `IoFailure`; a toolchain that reports failure finishes it with
//! `ToolchainFailure` and the module is not read.
use vstd::prelude::*;

use crate::configuration::{
    command_args, Configuration, ConfigurationModel, Invocation, InvocationModel, TOOLCHAIN,
};
use crate::error::{CompileError, ProcessOutput};

verus! {

/// The suffix of the temporary file that holds the source.
pub const SOURCE_SUFFIX: &'static str = "_c-to-wasm-source.c";

/// The suffix of the temporary file that receives the module.
pub const MODULE_SUFFIX: &'static str = "_c-to-wasm-out.wasm";

/// The two temporary files of a compilation.
#[derive(Clone, Copy, Debug, PartialEq, Eq, Structural)]
pub enum Artifact {
    Source,
    Module,
}

impl Artifact {
    /// The suffix that marks what the file is for.
    pub fn suffix(&self) -> (r: &'static str)
        ensures
            r@ == (match self {
                Artifact::Source => SOURCE_SUFFIX@,
                Artifact::Module => MODULE_SUFFIX@,
            }),
    {
        match self {
            Artifact::Source => SOURCE_SUFFIX,
            Artifact::Module => MODULE_SUFFIX,
        }
    }
}

/// Where a compilation stands: which report it waits for.
#[derive(Clone, Copy, Debug, PartialEq, Eq, Structural)]
pub enum Stage {
    CreatingSource,
    CreatingModule,
    WritingSource,
    Running,
    ReadingModule,
    Done,
}

/// What the host is asked to do next.
#[derive(Debug)]
pub enum Step {
    /// Create a uniquely named temporary file with the artifact's suffix,
    /// keep it until the compilation finishes, and report its path.
    Create(Artifact),
    /// Write this text into the source file.
    Write(String),
    /// Run this invocation once and report its exit code and output.
    Run(Invocation),
    /// Read the whole module file.
    Read,
    /// The compilation is over, with this outcome; release both files.
    Finish(Result<Vec<u8>, CompileError>),
}

/// The mathematical content of a `Step`.
pub enum StepModel {
    Create(Artifact),
    Write(Seq<char>),
    Run(InvocationModel),
    Read,
    Finish(Result<Vec<u8>, CompileError>),
}

impl View for Step {
    type V = StepModel;

    open spec fn view(&self) -> StepModel {
        match self {
            Step::Create(a) => StepModel::Create(*a),
            Step::Write(s) => StepModel::Write(s@),
            Step::Run(inv) => StepModel::Run(inv@),
            Step::Read => StepModel::Read,
            Step::Finish(r) => StepModel::Finish(*r),
        }
    }
}

/// What the host reports after performing a step.
#[derive(Debug)]
pub enum Event {
    /// The temporary file was created at this path.
    Created(String),
    /// The source was written.
    Written,
    /// The toolchain ran and reported this.
    Ran(ProcessOutput),
    /// The module file holds these bytes.
    ReadBack(Vec<u8>),
    /// The file-system operation, or starting the toolchain, failed.
    Failed(std::io::Error),
}

/// One compilation in progress.
pub struct Compilation {
    stage: Stage,
    input_path: String,
    output_path: String,
}

/// The mathematical content of a `Compilation`.
pub struct CompilationModel {
    pub stage: Stage,
    pub input_path: Seq<char>,
    pub output_path: Seq<char>,
}

impl View for Compilation {
    type V = CompilationModel;

    closed spec fn view(&self) -> CompilationModel {
        CompilationModel {
            stage: self.stage,
            input_path: self.input_path@,
            output_path: self.output_path@,
        }
    }
}

/// The compilation as it starts, before any file exists.
pub open spec fn initial() -> CompilationModel {
    CompilationModel { stage: Stage::CreatingSource, input_path: seq![], output_path: seq![] }
}

/// Whether a compilation at stage `s` can take the report `e`: a failure at
/// any stage before the end, otherwise the report of the step it asked for.
pub open spec fn accepts(s: Stage, e: Event) -> bool {
    match e {
        Event::Created(_) => s == Stage::CreatingSource || s == Stage::CreatingModule,
        Event::Written => s == Stage::WritingSource,
        Event::Ran(_) => s == Stage::Running,
        Event::ReadBack(_) => s == Stage::ReadingModule,
        Event::Failed(_) => s != Stage::Done,
    }
}

/// Where a compilation in state `s`, compiling `c`, goes on the report `e`,
/// and what it asks for next.
pub open spec fn transition(s: CompilationModel, c: ConfigurationModel, e: Event) -> (
    CompilationModel,
    StepModel,
) {
    let done = CompilationModel { stage: Stage::Done, ..s };
    match e {
        Event::Failed(cause) => (done, StepModel::Finish(Err(CompileError::IoFailure(cause)))),
        Event::Created(path) => if s.stage == Stage::CreatingSource {
            (
                CompilationModel { stage: Stage::CreatingModule, input_path: path@, ..s },
                StepModel::Create(Artifact::Module),
            )
        } else {
            (
                CompilationModel { stage: Stage::WritingSource, output_path: path@, ..s },
                StepModel::Write(c.source),
            )
        },
        Event::Written => (
            CompilationModel { stage: Stage::Running, ..s },
            StepModel::Run(
                InvocationModel {
                    program: TOOLCHAIN@,
                    args: command_args(c, s.input_path, s.output_path),
                },
            ),
        ),
        Event::Ran(output) => if output.spec_success() {
            (CompilationModel { stage: Stage::ReadingModule, ..s }, StepModel::Read)
        } else {
            (done, StepModel::Finish(Err(CompileError::ToolchainFailure(output))))
        },
        Event::ReadBack(bytes) => (done, StepModel::Finish(Ok(bytes))),
    }
}

impl Compilation {
    /// The stage the compilation is at.
    pub fn stage(&self) -> (r: Stage)
        ensures
            r == self@.stage,
    {
        self.stage
    }

    /// Starts a compilation; its first request is the source file.
    pub fn start() -> (r: (Compilation, Step))
        ensures
            r.0@ == initial(),
            r.1@ == StepModel::Create(Artifact::Source),
    {
        let c = Compilation {
            stage: Stage::CreatingSource,
            input_path: String::new(),
            output_path: String::new(),
        };
        (c, Step::Create(Artifact::Source))
    }

    /// Whether the compilation can take the report `event` now.
    pub fn accepts(&self, event: &Event) -> (r: bool)
        ensures
            r == accepts(self@.stage, *event),
    {
        match event {
            Event::Created(_) => self.stage == Stage::CreatingSource || self.stage
                == Stage::CreatingModule,
            Event::Written => self.stage == Stage::WritingSource,
            Event::Ran(_) => self.stage == Stage::Running,
            Event::ReadBack(_) => self.stage == Stage::ReadingModule,
            Event::Failed(_) => self.stage != Stage::Done,
        }
    }

    /// Takes the host's report on the last step and says what to do next.
    pub fn advance(&mut self, config: &Configuration, event: Event) -> (r: Step)
        requires
            accepts(old(self)@.stage, event),
        ensures
            (final(self)@, r@) == transition(old(self)@, config@, event),
    {
        match event {
            Event::Failed(cause) => {
                self.stage = Stage::Done;
                Step::Finish(Err(CompileError::IoFailure(cause)))
            },
            Event::Created(path) => {
                if self.stage == Stage::CreatingSource {
                    self.input_path = path;
                    self.stage = Stage::CreatingModule;
                    Step::Create(Artifact::Module)
                } else {
                    self.output_path = path;
                    self.stage = Stage::WritingSource;
                    Step::Write(config.source().to_owned())
                }
            },
            Event::Written => {
                self.stage = Stage::Running;
                Step::Run(config.as_command(self.input_path.as_str(), self.output_path.as_str()))
            },
            Event::Ran(output) => {
                if output.success() {
                    self.stage = Stage::ReadingModule;
                    Step::Read
                } else {
                    self.stage = Stage::Done;
                    Step::Finish(Err(CompileError::ToolchainFailure(output)))
                }
            },
            Event::ReadBack(bytes) => {
                self.stage = Stage::Done;
                Step::Finish(Ok(bytes))
            },
        }
    }
}

/// A compilation of `c`, in state `s` and asking for `step`, run on for at most
/// `fuel` steps by a host whose file system performs `budget` more operations
/// and then fails each one with `fault`. The host creates the source file at
/// `input` and the module file at `output`, finds `module` in the module file,
/// and its toolchain reports `run`. Yields the last step asked for.
pub open spec fn run_with_budget(
    s: CompilationModel,
    step: StepModel,
    c: ConfigurationModel,
    budget: nat,
    input: String,
    output: String,
    run: ProcessOutput,
    module: Vec<u8>,
    fault: std::io::Error,
    fuel: nat,
) -> StepModel
    decreases fuel,
{
    if fuel == 0 {
        step
    } else {
        match step {
            StepModel::Finish(_) => step,
            StepModel::Run(_) => {
                let (s2, step2) = transition(s, c, Event::Ran(run));
                run_with_budget(s2, step2, c, budget, input, output, run, module, fault, (fuel - 1) as nat)
            },
            _ => if budget == 0 {
                let (s2, step2) = transition(s, c, Event::Failed(fault));
                run_with_budget(s2, step2, c, 0, input, output, run, module, fault, (fuel - 1) as nat)
            } else {
                let event = match step {
                    StepModel::Create(Artifact::Source) => Event::Created(input),
                    StepModel::Create(Artifact::Module) => Event::Created(output),
                    StepModel::Write(_) => Event::Written,
                    _ => Event::ReadBack(module),
                };
                let (s2, step2) = transition(s, c, event);
                run_with_budget(
                    s2,
                    step2,
                    c,
                    (budget - 1) as nat,
                    input,
                    output,
                    run,
                    module,
                    fault,
                    (fuel - 1) as nat,
                )
            },
        }
    }
}

/// A compilation whose toolchain succeeds takes four file-system operations:
/// two files created, the source written, the module read. Where the file
/// system fails within those four, the compilation finishes with that
/// failure as `IoFailure`; where it lasts for all four, it finishes with the
/// module's bytes.
pub proof fn lemma_file_system_budget(
    c: ConfigurationModel,
    budget: nat,
    input: String,
    output: String,
    run: ProcessOutput,
    module: Vec<u8>,
    fault: std::io::Error,
)
    requires
        run.spec_success(),
    ensures
        run_with_budget(
            initial(),
            StepModel::Create(Artifact::Source),
            c,
            budget,
            input,
            output,
            run,
            module,
            fault,
            6,
        ) == if budget < 4 {
            StepModel::Finish(Err(CompileError::IoFailure(fault)))
        } else {
            StepModel::Finish(Ok(module))
        },
{
    reveal_with_fuel(run_with_budget, 7);
}

/// Where the file system does not fail before the toolchain runs (two files
/// created, the source written) and the toolchain reports failure, the
/// compilation finishes with `ToolchainFailure` carrying all the toolchain
/// reported, and never reads the module.
pub proof fn lemma_toolchain_failure(
    c: ConfigurationModel,
    budget: nat,
    input: String,
    output: String,
    run: ProcessOutput,
    module: Vec<u8>,
    fault: std::io::Error,
)
    requires
        budget >= 3,
        !run.spec_success(),
    ensures
        run_with_budget(
            initial(),
            StepModel::Create(Artifact::Source),
            c,
            budget,
            input,
            output,
            run,
            module,
            fault,
            6,
        ) == StepModel::Finish(Err::<Vec<u8>, CompileError>(CompileError::ToolchainFailure(run))),
{
    reveal_with_fuel(run_with_budget, 7);
}

} // verus!
