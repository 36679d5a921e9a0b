//! The decisions of the per-equation render pipeline and of the batch around it.
//!
//! The pipeline is a state machine: a step names the work in progress, the
//! caller performs the action of that step and reports how it went, and the
//! machine answers with the next step. Each equation's files are
//! `<name>.tex` (typesetting source), `<name>.pdf` (intermediate output) and
//! `<name>.svg` (final image), all in the output directory.
use vstd::prelude::*;
use crate::equation::Equation;
use crate::latex::latex_document;

verus! {

/// How rendering one equation ended.
#[derive(Debug, Clone, Copy, PartialEq, Eq, Structural)]
pub enum RenderOutcome {
    /// The equation is inactive: nothing was done.
    Skipped,
    /// The image was produced.
    Rendered,
    /// The output directory or the source file could not be made: the batch stops.
    Fatal,
    /// The typesetting engine exited with failure.
    TypesetFailed,
    /// The rasterizer is not installed; nothing more can be done for any equation.
    RasterizerMissing,
    /// The typesetting engine succeeded but left no intermediate file.
    IntermediateMissing,
    /// The rasterizer exited with failure.
    RasterizeFailed,
}

/// Where the pipeline of one equation stands: the work now to be done.
#[derive(Debug, Clone, Copy, PartialEq, Eq, Structural)]
pub enum RenderStep {
    CreatingDir,
    WritingSource,
    Typesetting,
    ProbingRasterizer,
    LocatingIntermediate,
    Rasterizing,
    RemovingSource(RenderOutcome),
    RemovingIntermediate(RenderOutcome),
    Finished(RenderOutcome),
}

/// How the action of a step went.
#[derive(Debug, Clone, Copy, PartialEq, Eq, Structural)]
pub enum StepResult {
    /// It was done (a process exited with success, a file exists).
    Succeeded,
    /// It was done and said no (a process exited with failure, a file is absent).
    Failed,
    /// It could not be done at all (an I/O error, a process that would not start).
    Errored,
}

/// What the caller is asked to do; file names are relative to the output directory.
#[derive(Debug, Clone)]
pub enum RenderAction {
    CreateOutputDir,
    WriteFile { file: String, contents: String },
    RunTypesetter { source: String },
    ProbeRasterizer,
    CheckExists { file: String },
    RunRasterizer { input: String, output: String },
    RemoveFile { file: String },
    Finish { outcome: RenderOutcome },
}

/// The name of one of an equation's files.
pub open spec fn artifact(name: Seq<char>, ext: Seq<char>) -> Seq<char> {
    name + seq!['.'] + ext
}

/// The first step of an equation's pipeline: nothing at all for an inactive one.
pub open spec fn first_step(active: bool) -> RenderStep {
    if active {
        RenderStep::CreatingDir
    } else {
        RenderStep::Finished(RenderOutcome::Skipped)
    }
}

/// After the rasterizing stage ends with `o`: the optional cleanup, then the end.
pub open spec fn after_raster(o: RenderOutcome, delete_intermediates: bool) -> RenderStep {
    if delete_intermediates {
        RenderStep::RemovingSource(o)
    } else {
        RenderStep::Finished(o)
    }
}

/// The step that follows `step` once its action went as `res`.
pub open spec fn step_after(step: RenderStep, res: StepResult, delete_intermediates: bool) -> RenderStep {
    match step {
        RenderStep::CreatingDir | RenderStep::WritingSource => if res == StepResult::Succeeded {
            if step == RenderStep::CreatingDir {
                RenderStep::WritingSource
            } else {
                RenderStep::Typesetting
            }
        } else {
            RenderStep::Finished(RenderOutcome::Fatal)
        },
        RenderStep::Typesetting => match res {
            StepResult::Succeeded => RenderStep::ProbingRasterizer,
            StepResult::Failed => RenderStep::Finished(RenderOutcome::TypesetFailed),
            StepResult::Errored => RenderStep::Finished(RenderOutcome::Fatal),
        },
        RenderStep::ProbingRasterizer => if res == StepResult::Succeeded {
            RenderStep::LocatingIntermediate
        } else {
            after_raster(RenderOutcome::RasterizerMissing, delete_intermediates)
        },
        RenderStep::LocatingIntermediate => if res == StepResult::Succeeded {
            RenderStep::Rasterizing
        } else {
            after_raster(RenderOutcome::IntermediateMissing, delete_intermediates)
        },
        RenderStep::Rasterizing => match res {
            StepResult::Succeeded => after_raster(RenderOutcome::Rendered, delete_intermediates),
            StepResult::Failed => after_raster(RenderOutcome::RasterizeFailed, delete_intermediates),
            StepResult::Errored => RenderStep::Finished(RenderOutcome::Fatal),
        },
        RenderStep::RemovingSource(o) => RenderStep::RemovingIntermediate(o),
        RenderStep::RemovingIntermediate(o) => RenderStep::Finished(o),
        RenderStep::Finished(o) => RenderStep::Finished(o),
    }
}

/// The action of `step` for an equation with the given name and body, in the given colour.
pub open spec fn action_ok(
    step: RenderStep,
    name: Seq<char>,
    body: Seq<char>,
    color: Seq<char>,
    a: RenderAction,
) -> bool {
    match step {
        RenderStep::CreatingDir => a is CreateOutputDir,
        RenderStep::WritingSource => match a {
            RenderAction::WriteFile { file, contents } => file@ == artifact(name, "tex"@)
                && contents@ == latex_document(color, body),
            _ => false,
        },
        RenderStep::Typesetting => match a {
            RenderAction::RunTypesetter { source } => source@ == artifact(name, "tex"@),
            _ => false,
        },
        RenderStep::ProbingRasterizer => a is ProbeRasterizer,
        RenderStep::LocatingIntermediate => match a {
            RenderAction::CheckExists { file } => file@ == artifact(name, "pdf"@),
            _ => false,
        },
        RenderStep::Rasterizing => match a {
            RenderAction::RunRasterizer { input, output } => input@ == artifact(name, "pdf"@)
                && output@ == artifact(name, "svg"@),
            _ => false,
        },
        RenderStep::RemovingSource(_) => match a {
            RenderAction::RemoveFile { file } => file@ == artifact(name, "tex"@),
            _ => false,
        },
        RenderStep::RemovingIntermediate(_) => match a {
            RenderAction::RemoveFile { file } => file@ == artifact(name, "pdf"@),
            _ => false,
        },
        RenderStep::Finished(o) => match a {
            RenderAction::Finish { outcome } => outcome == o,
            _ => false,
        },
    }
}

/// Whether the batch goes on after an equation ended with `o`: only a fatal
/// outcome stops it.
pub open spec fn batch_goes_on(o: RenderOutcome) -> bool {
    o != RenderOutcome::Fatal
}

/// The name of one of this equation's files.
fn artifact_name(name: &String, ext: &str) -> (r: String)
    ensures
        r@ == artifact(name@, ext@),
{
    let mut s = name.clone();
    s.append(".");
    s.append(ext);
    proof {
        reveal_strlit(".");
    }
    s
}

impl Equation {
    /// Where this equation's pipeline starts.
    pub fn first_step(&self) -> (r: RenderStep)
        ensures
            r == first_step(self.active),
    {
        if self.active {
            RenderStep::CreatingDir
        } else {
            RenderStep::Finished(RenderOutcome::Skipped)
        }
    }

    /// What to do at `step`.
    pub fn action(&self, step: RenderStep, color: &str) -> (r: RenderAction)
        ensures
            action_ok(step, self.name@, self.body@, color@, r),
    {
        match step {
            RenderStep::CreatingDir => RenderAction::CreateOutputDir,
            RenderStep::WritingSource => RenderAction::WriteFile {
                file: artifact_name(&self.name, "tex"),
                contents: self.generate_latex(color),
            },
            RenderStep::Typesetting => RenderAction::RunTypesetter {
                source: artifact_name(&self.name, "tex"),
            },
            RenderStep::ProbingRasterizer => RenderAction::ProbeRasterizer,
            RenderStep::LocatingIntermediate => RenderAction::CheckExists {
                file: artifact_name(&self.name, "pdf"),
            },
            RenderStep::Rasterizing => RenderAction::RunRasterizer {
                input: artifact_name(&self.name, "pdf"),
                output: artifact_name(&self.name, "svg"),
            },
            RenderStep::RemovingSource(_) => RenderAction::RemoveFile {
                file: artifact_name(&self.name, "tex"),
            },
            RenderStep::RemovingIntermediate(_) => RenderAction::RemoveFile {
                file: artifact_name(&self.name, "pdf"),
            },
            RenderStep::Finished(o) => RenderAction::Finish { outcome: o },
        }
    }
}

fn after_rasterizing(o: RenderOutcome, delete_intermediates: bool) -> (r: RenderStep)
    ensures
        r == after_raster(o, delete_intermediates),
{
    if delete_intermediates {
        RenderStep::RemovingSource(o)
    } else {
        RenderStep::Finished(o)
    }
}

/// The step that follows `step` once its action went as `res`.
pub fn next_step(step: RenderStep, res: StepResult, delete_intermediates: bool) -> (r: RenderStep)
    ensures
        r == step_after(step, res, delete_intermediates),
{
    match step {
        RenderStep::CreatingDir => match res {
            StepResult::Succeeded => RenderStep::WritingSource,
            _ => RenderStep::Finished(RenderOutcome::Fatal),
        },
        RenderStep::WritingSource => match res {
            StepResult::Succeeded => RenderStep::Typesetting,
            _ => RenderStep::Finished(RenderOutcome::Fatal),
        },
        RenderStep::Typesetting => match res {
            StepResult::Succeeded => RenderStep::ProbingRasterizer,
            StepResult::Failed => RenderStep::Finished(RenderOutcome::TypesetFailed),
            StepResult::Errored => RenderStep::Finished(RenderOutcome::Fatal),
        },
        RenderStep::ProbingRasterizer => match res {
            StepResult::Succeeded => RenderStep::LocatingIntermediate,
            _ => after_rasterizing(RenderOutcome::RasterizerMissing, delete_intermediates),
        },
        RenderStep::LocatingIntermediate => match res {
            StepResult::Succeeded => RenderStep::Rasterizing,
            _ => after_rasterizing(RenderOutcome::IntermediateMissing, delete_intermediates),
        },
        RenderStep::Rasterizing => match res {
            StepResult::Succeeded => after_rasterizing(RenderOutcome::Rendered, delete_intermediates),
            StepResult::Failed => after_rasterizing(RenderOutcome::RasterizeFailed, delete_intermediates),
            StepResult::Errored => RenderStep::Finished(RenderOutcome::Fatal),
        },
        RenderStep::RemovingSource(o) => RenderStep::RemovingIntermediate(o),
        RenderStep::RemovingIntermediate(o) => RenderStep::Finished(o),
        RenderStep::Finished(o) => RenderStep::Finished(o),
    }
}

/// Whether the batch goes on after an equation ended with `o`.
pub fn continues_batch(o: RenderOutcome) -> (r: bool)
    ensures
        r == batch_goes_on(o),
{
    match o {
        RenderOutcome::Fatal => false,
        _ => true,
    }
}

/// The positions of the active equations, in order: the ones a batch renders,
/// and as many as its progress counts.
pub fn active_indices(equations: &Vec<Equation>) -> (r: Vec<usize>)
    ensures
        forall|k: int| 0 <= k < r.len() ==> r[k] < equations.len() && equations[r[k] as int].active,
        forall|k: int, l: int| 0 <= k < l < r.len() ==> r[k] < r[l],
        forall|j: int|
            0 <= j < equations.len() && (#[trigger] equations[j]).active ==> exists|k: int|
                0 <= k < r.len() && r[k] == j,
{
    let mut out: Vec<usize> = Vec::new();
    for i in 0..equations.len()
        invariant
            forall|k: int| 0 <= k < out.len() ==> out[k] < i && equations[out[k] as int].active,
            forall|k: int, l: int| 0 <= k < l < out.len() ==> out[k] < out[l],
            forall|j: int|
                0 <= j < i && (#[trigger] equations[j]).active ==> exists|k: int|
                    0 <= k < out.len() && out[k] == j,
    {
        let ghost prev = out@;
        if equations[i].active {
            out.push(i);
            assert forall|j: int|
                0 <= j < i + 1 && (#[trigger] equations[j]).active implies exists|k: int|
                    0 <= k < out.len() && out[k] == j by {
                if j < i {
                    let k = choose|k: int| 0 <= k < prev.len() && prev[k] == j;
                    assert(out[k] == j);
                } else {
                    assert(out[out.len() - 1] == i);
                }
            }
        }
    }
    out
}

/// What a batch remembers between equations: whether the rasterizer was
/// found missing, so that it is probed, and reported, once only.
#[derive(Debug, Clone, Copy, PartialEq, Eq, Structural)]
pub struct BatchState {
    pub rasterizer_missing: bool,
}

/// The result of the action of `step` that the batch already knows: a probe
/// for a rasterizer known to be missing fails without being made.
pub open spec fn known_result(missing: bool, step: RenderStep) -> Option<StepResult> {
    if missing && step == RenderStep::ProbingRasterizer {
        Some(StepResult::Failed)
    } else {
        None
    }
}

impl BatchState {
    /// A batch that has found nothing missing yet.
    pub fn new() -> (r: BatchState)
        ensures
            !r.rasterizer_missing,
    {
        BatchState { rasterizer_missing: false }
    }

    /// The result of the action of `step` where the batch knows it already;
    /// none where the action is to be carried out.
    pub fn known_result(&self, step: RenderStep) -> (r: Option<StepResult>)
        ensures
            r == known_result(self.rasterizer_missing, step),
    {
        if self.rasterizer_missing && step == RenderStep::ProbingRasterizer {
            Some(StepResult::Failed)
        } else {
            None
        }
    }

    /// Records how an equation ended; returns whether the missing rasterizer
    /// is to be reported now, which is on its first discovery only.
    pub fn record(&mut self, o: RenderOutcome) -> (warn: bool)
        ensures
            final(self).rasterizer_missing == (old(self).rasterizer_missing || o
                == RenderOutcome::RasterizerMissing),
            warn == (o == RenderOutcome::RasterizerMissing && !old(self).rasterizer_missing),
    {
        let warn = o == RenderOutcome::RasterizerMissing && !self.rasterizer_missing;
        if o == RenderOutcome::RasterizerMissing {
            self.rasterizer_missing = true;
        }
        warn
    }
}

/// Once the rasterizer is found missing, no later equation probes for it, and
/// each such equation ends as missing the rasterizer (after its cleanup).
pub proof fn lemma_rasterizer_probed_once(delete_intermediates: bool)
    ensures
        known_result(true, RenderStep::ProbingRasterizer) == Some(StepResult::Failed),
        step_after(RenderStep::ProbingRasterizer, StepResult::Failed, delete_intermediates)
            == after_raster(RenderOutcome::RasterizerMissing, delete_intermediates),
        forall|step: RenderStep| #[trigger] known_result(false, step) is None,
{
}

/// Whether action `a` reads, writes or removes the file `f`.
pub open spec fn touches(a: RenderAction, f: Seq<char>) -> bool {
    match a {
        RenderAction::WriteFile { file, .. } => file@ == f,
        RenderAction::RunTypesetter { source } => source@ == f,
        RenderAction::CheckExists { file } => file@ == f,
        RenderAction::RunRasterizer { input, output } => input@ == f || output@ == f,
        RenderAction::RemoveFile { file } => file@ == f,
        _ => false,
    }
}

/// Whether the action runs an outside process or touches the file system.
pub open spec fn is_effect(a: RenderAction) -> bool {
    !(a is Finish)
}

/// An inactive equation's pipeline starts finished as skipped: its only action
/// is to finish, so it runs no process and touches no file, and it stays finished.
pub proof fn lemma_inactive_does_nothing(
    name: Seq<char>,
    body: Seq<char>,
    color: Seq<char>,
    a: RenderAction,
    res: StepResult,
    delete_intermediates: bool,
)
    ensures
        first_step(false) == RenderStep::Finished(RenderOutcome::Skipped),
        action_ok(first_step(false), name, body, color, a) ==> !is_effect(a),
        step_after(first_step(false), res, delete_intermediates) == first_step(false),
{
}

/// A typesetting failure ends only that equation's pipeline, and the batch
/// goes on; a failure to make the output directory ends the pipeline before
/// the typesetter runs, and stops the batch.
pub proof fn lemma_failures_isolated_or_fatal(res: StepResult, delete_intermediates: bool)
    ensures
        step_after(RenderStep::Typesetting, StepResult::Failed, delete_intermediates)
            == RenderStep::Finished(RenderOutcome::TypesetFailed),
        batch_goes_on(RenderOutcome::TypesetFailed),
        res != StepResult::Succeeded ==> step_after(RenderStep::CreatingDir, res, delete_intermediates)
            == RenderStep::Finished(RenderOutcome::Fatal),
        !batch_goes_on(RenderOutcome::Fatal),
{
}

/// Cleanup never fails: whatever becomes of removing the intermediate files
/// (already absent, say), the pipeline goes on the same way and keeps its outcome.
pub proof fn lemma_cleanup_is_advisory(
    o: RenderOutcome,
    r1: StepResult,
    r2: StepResult,
    delete_intermediates: bool,
)
    ensures
        step_after(RenderStep::RemovingSource(o), r1, delete_intermediates) == step_after(
            RenderStep::RemovingSource(o),
            r2,
            delete_intermediates,
        ),
        step_after(RenderStep::RemovingIntermediate(o), r1, delete_intermediates)
            == RenderStep::Finished(o),
        step_after(RenderStep::RemovingIntermediate(o), r2, delete_intermediates)
            == RenderStep::Finished(o),
{
}

/// Every action of an equation's pipeline names one of its three files, the
/// same whenever it is rendered; without cleanup no file is ever removed.
pub proof fn lemma_same_three_files(
    step: RenderStep,
    res: StepResult,
    name: Seq<char>,
    body: Seq<char>,
    color: Seq<char>,
    a: RenderAction,
    f: Seq<char>,
)
    ensures
        action_ok(step, name, body, color, a) && touches(a, f) ==> f == artifact(name, "tex"@)
            || f == artifact(name, "pdf"@) || f == artifact(name, "svg"@),
        !(step is RemovingSource) && !(step is RemovingIntermediate) ==> {
            let next = step_after(step, res, false);
            !(next is RemovingSource) && !(next is RemovingIntermediate)
        },
{
}

} // verus!
