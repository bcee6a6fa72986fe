//! The build driver: which launch of the build tool comes next, and when the
//! run ends. The caller launches the tool and reports back what came of it;
//! every decision is taken here.

use vstd::prelude::*;
use vstd::string::StringExecFns;
use crate::preset::{Preset, PresetView};
use crate::selector::referents;
use crate::text::{opt_chars, opt_str_chars, strings};

verus! {

/// The two launches that a preset goes through.
#[derive(Debug, Clone, Copy, PartialEq, Eq, Structural)]
pub enum Phase {
    Configure,
    Build,
}

/// What came of one launch of the build tool.
#[derive(Debug)]
pub enum ProcessReport {
    /// The tool could not be started.
    SpawnFailed { cause: String },
    /// The tool started, but waiting for its end failed.
    WaitFailed { cause: String },
    /// The tool ran to its end; `code` is absent when it gave none,
    /// `status` is the exit status as text.
    Exited { code: Option<i32>, status: String },
}

/// Why a launch counts as failed.
#[derive(Debug)]
pub enum CmakeError {
    /// The tool could not be started; `cause` is the system's message.
    Spawn { cause: String },
    /// Waiting for the tool failed; `cause` is the system's message.
    Wait { cause: String },
    /// The tool ended with another exit code than 0, or with none.
    Exit { status: String },
}

/// Which phase of a preset failed, and why.
#[derive(Debug)]
pub enum PhaseError {
    Configure(CmakeError),
    Build(CmakeError),
}

/// One launch of the build tool.
#[derive(Debug)]
pub struct Invocation {
    /// The phase that the launch belongs to.
    pub phase: Phase,
    /// The program to start.
    pub program: String,
    /// Its arguments, in order.
    pub args: Vec<String>,
}

/// What to do next for one preset.
#[derive(Debug)]
pub enum Step {
    /// Make this launch, and come back with its report.
    Launch(Invocation),
    /// Both phases succeeded.
    Done,
    /// A phase failed; the preset gets no further launch.
    Failed(PhaseError),
}

/// What to do next in the run over all chosen presets.
#[derive(Debug)]
pub enum RunStep {
    /// Print `banner` where there is one, launch, and report back.
    Launch { preset: usize, banner: Option<String>, invocation: Invocation },
    /// Every preset is configured and built.
    Finished,
    /// A launch for the preset at `preset` failed; nothing more is launched.
    Abort { preset: usize, error: PhaseError },
}

/// Mathematical model of a [`ProcessReport`].
pub enum ReportView {
    SpawnFailed { cause: Seq<char> },
    WaitFailed { cause: Seq<char> },
    Exited { code: Option<i32>, status: Seq<char> },
}

/// Mathematical model of a [`CmakeError`].
pub enum CmakeErrorView {
    Spawn { cause: Seq<char> },
    Wait { cause: Seq<char> },
    Exit { status: Seq<char> },
}

/// Mathematical model of a [`PhaseError`].
pub enum PhaseErrorView {
    Configure(CmakeErrorView),
    Build(CmakeErrorView),
}

/// Mathematical model of an [`Invocation`].
pub struct InvocationView {
    pub phase: Phase,
    pub program: Seq<char>,
    pub args: Seq<Seq<char>>,
}

/// Mathematical model of a [`Step`].
pub enum StepView {
    Launch(InvocationView),
    Done,
    Failed(PhaseErrorView),
}

/// Mathematical model of a [`RunStep`].
pub enum RunStepView {
    Launch { preset: int, banner: Option<Seq<char>>, invocation: InvocationView },
    Finished,
    Abort { preset: int, error: PhaseErrorView },
}

impl View for ProcessReport {
    type V = ReportView;

    open spec fn view(&self) -> ReportView {
        match *self {
            ProcessReport::SpawnFailed { cause } => ReportView::SpawnFailed { cause: cause@ },
            ProcessReport::WaitFailed { cause } => ReportView::WaitFailed { cause: cause@ },
            ProcessReport::Exited { code, status } => ReportView::Exited { code, status: status@ },
        }
    }
}

impl View for CmakeError {
    type V = CmakeErrorView;

    open spec fn view(&self) -> CmakeErrorView {
        match *self {
            CmakeError::Spawn { cause } => CmakeErrorView::Spawn { cause: cause@ },
            CmakeError::Wait { cause } => CmakeErrorView::Wait { cause: cause@ },
            CmakeError::Exit { status } => CmakeErrorView::Exit { status: status@ },
        }
    }
}

impl View for PhaseError {
    type V = PhaseErrorView;

    open spec fn view(&self) -> PhaseErrorView {
        match *self {
            PhaseError::Configure(cause) => PhaseErrorView::Configure(cause@),
            PhaseError::Build(cause) => PhaseErrorView::Build(cause@),
        }
    }
}

impl View for Invocation {
    type V = InvocationView;

    open spec fn view(&self) -> InvocationView {
        InvocationView { phase: self.phase, program: self.program@, args: strings(self.args@) }
    }
}

impl View for Step {
    type V = StepView;

    open spec fn view(&self) -> StepView {
        match *self {
            Step::Launch(invocation) => StepView::Launch(invocation@),
            Step::Done => StepView::Done,
            Step::Failed(error) => StepView::Failed(error@),
        }
    }
}

impl View for RunStep {
    type V = RunStepView;

    open spec fn view(&self) -> RunStepView {
        match *self {
            RunStep::Launch { preset, banner, invocation } => RunStepView::Launch {
                preset: preset as int,
                banner: opt_chars(banner),
                invocation: invocation@,
            },
            RunStep::Finished => RunStepView::Finished,
            RunStep::Abort { preset, error } => RunStepView::Abort {
                preset: preset as int,
                error: error@,
            },
        }
    }
}

/// The models of a sequence of reports, in order.
pub open spec fn report_views(reports: Seq<ProcessReport>) -> Seq<ReportView> {
    reports.map_values(|report: ProcessReport| report@)
}

/// The model of a report that may not be there yet.
pub open spec fn opt_report_view(report: Option<&ProcessReport>) -> Option<ReportView> {
    match report {
        Some(known) => Some(known@),
        None => None,
    }
}

/// A launch succeeded exactly when the tool ran to its end with exit code 0.
pub open spec fn cmake_outcome(report: ReportView) -> Result<(), CmakeErrorView> {
    match report {
        ReportView::SpawnFailed { cause } => Err(CmakeErrorView::Spawn { cause }),
        ReportView::WaitFailed { cause } => Err(CmakeErrorView::Wait { cause }),
        ReportView::Exited { code, status } => if code == Some(0i32) {
            Ok(())
        } else {
            Err(CmakeErrorView::Exit { status })
        },
    }
}

/// The configure launch: the tool is told the preset by name.
pub open spec fn configure_invocation(name: Seq<char>) -> InvocationView {
    InvocationView { phase: Phase::Configure, program: "cmake"@, args: seq!["--preset"@, name] }
}

/// The build launch: the tool is told the directory to build in.
pub open spec fn build_invocation(binary_dir: Seq<char>) -> InvocationView {
    InvocationView { phase: Phase::Build, program: "cmake"@, args: seq!["--build"@, binary_dir] }
}

/// The next step for one preset, from what is known of its two launches:
/// configure first; build only after configure succeeded; done after both.
pub open spec fn preset_step(
    name: Seq<char>,
    binary_dir: Seq<char>,
    configured: Option<ReportView>,
    built: Option<ReportView>,
) -> StepView {
    match configured {
        None => StepView::Launch(configure_invocation(name)),
        Some(first) => match cmake_outcome(first) {
            Err(cause) => StepView::Failed(PhaseErrorView::Configure(cause)),
            Ok(_) => match built {
                None => StepView::Launch(build_invocation(binary_dir)),
                Some(second) => match cmake_outcome(second) {
                    Err(cause) => StepView::Failed(PhaseErrorView::Build(cause)),
                    Ok(_) => StepView::Done,
                },
            },
        },
    }
}

/// The report at `position`, if that launch has been made.
pub open spec fn report_at(reports: Seq<ReportView>, position: int) -> Option<ReportView> {
    if 0 <= position < reports.len() {
        Some(reports[position])
    } else {
        None
    }
}

/// The separator printed before a preset's first launch.
pub open spec fn banner_text(label: Seq<char>) -> Seq<char> {
    "----- "@ + label + " -----"@
}

/// The next step of the run, looking at the presets from `from` on. The
/// launches of preset `k` are reported at positions `2k` and `2k + 1`.
pub open spec fn run_step_from(chosen: Seq<PresetView>, reports: Seq<ReportView>, from: int) -> RunStepView
    decreases chosen.len() - from,
{
    if from < 0 || from >= chosen.len() {
        RunStepView::Finished
    } else {
        let preset = chosen[from];
        match preset_step(
            preset.name,
            preset.binary_dir->0,
            report_at(reports, 2 * from),
            report_at(reports, 2 * from + 1),
        ) {
            StepView::Done => run_step_from(chosen, reports, from + 1),
            StepView::Launch(invocation) => RunStepView::Launch {
                preset: from,
                banner: if invocation.phase == Phase::Configure {
                    Some(banner_text(preset.label()))
                } else {
                    None
                },
                invocation,
            },
            StepView::Failed(error) => RunStepView::Abort { preset: from, error },
        }
    }
}

/// The next step of the run over `chosen`, given the reports of the launches
/// made so far, in the order they were made.
pub open spec fn run_step(chosen: Seq<PresetView>, reports: Seq<ReportView>) -> RunStepView {
    run_step_from(chosen, reports, 0)
}

/// Judges one launch of the build tool: it succeeded when the tool ran to
/// its end with exit code 0; otherwise the error says what went wrong.
pub fn cmake(report: &ProcessReport) -> (r: Result<(), CmakeError>)
    ensures
        match r {
            Ok(_) => cmake_outcome(report@) is Ok,
            Err(error) => cmake_outcome(report@) == Err::<(), CmakeErrorView>(error@),
        },
{
    match report {
        ProcessReport::SpawnFailed { cause } => Err(CmakeError::Spawn { cause: cause.clone() }),
        ProcessReport::WaitFailed { cause } => Err(CmakeError::Wait { cause: cause.clone() }),
        ProcessReport::Exited { code, status } => {
            let clean = match code {
                Some(value) => *value == 0,
                None => false,
            };
            if clean {
                Ok(())
            } else {
                Err(CmakeError::Exit { status: status.clone() })
            }
        },
    }
}

/// What a failed launch is reported as.
pub open spec fn cmake_message(error: CmakeErrorView) -> Seq<char> {
    match error {
        CmakeErrorView::Spawn { .. } => "Failed to spawn CMake"@,
        CmakeErrorView::Wait { .. } => "Failed executing CMake"@,
        CmakeErrorView::Exit { status } => "CMake failed with exit code"@ + status,
    }
}

/// What lies under a failed launch, where the system said more.
pub open spec fn cmake_cause(error: CmakeErrorView) -> Option<Seq<char>> {
    match error {
        CmakeErrorView::Spawn { cause } => Some(cause),
        CmakeErrorView::Wait { cause } => Some(cause),
        CmakeErrorView::Exit { .. } => None,
    }
}

/// What a failed phase is reported as.
pub open spec fn phase_message(error: PhaseErrorView) -> Seq<char> {
    match error {
        PhaseErrorView::Configure(_) => "CMake configure step failed"@,
        PhaseErrorView::Build(_) => "CMake build step failed"@,
    }
}

impl CmakeError {
    /// The message for this failure; an exit status is appended as it is.
    pub fn message(&self) -> (r: String)
        ensures
            r@ == cmake_message(self@),
    {
        match self {
            CmakeError::Spawn { .. } => String::from_str("Failed to spawn CMake"),
            CmakeError::Wait { .. } => String::from_str("Failed executing CMake"),
            CmakeError::Exit { status } => {
                let mut text = String::from_str("CMake failed with exit code");
                text.append(status.as_str());
                text
            },
        }
    }

    /// The system's own words for why the tool could not be started or
    /// waited for.
    pub fn cause(&self) -> (r: Option<&str>)
        ensures
            opt_str_chars(r) == cmake_cause(self@),
    {
        match self {
            CmakeError::Spawn { cause } => Some(cause.as_str()),
            CmakeError::Wait { cause } => Some(cause.as_str()),
            CmakeError::Exit { .. } => None,
        }
    }
}

/// What a failed phase of the preset named `preset` is reported as.
pub open spec fn failure_message(error: PhaseErrorView, preset: Seq<char>) -> Seq<char> {
    phase_message(error) + " for preset "@ + preset
}

impl PhaseError {
    /// The message that names the failed phase.
    pub fn message(&self) -> (r: String)
        ensures
            r@ == phase_message(self@),
    {
        match self {
            PhaseError::Configure(_) => String::from_str("CMake configure step failed"),
            PhaseError::Build(_) => String::from_str("CMake build step failed"),
        }
    }

    /// The message that names the failed phase and the preset it failed for.
    pub fn message_for(&self, preset: &str) -> (r: String)
        ensures
            r@ == failure_message(self@, preset@),
    {
        let mut text = self.message();
        text.append(" for preset ");
        text.append(preset);
        text
    }

    /// The failed launch under this failure.
    pub fn launch(&self) -> (r: &CmakeError)
        ensures
            self@ == PhaseErrorView::Configure(r@) || self@ == PhaseErrorView::Build(r@),
    {
        match self {
            PhaseError::Configure(cause) => cause,
            PhaseError::Build(cause) => cause,
        }
    }
}

/// The launch of one phase: `cmake` with the phase's flag and its argument.
fn invocation(phase: Phase, argument: &str) -> (r: Invocation)
    ensures
        r@ == match phase {
            Phase::Configure => configure_invocation(argument@),
            Phase::Build => build_invocation(argument@),
        },
{
    let flag = match phase {
        Phase::Configure => String::from_str("--preset"),
        Phase::Build => String::from_str("--build"),
    };
    let args = vec![flag, String::from_str(argument)];
    proof {
        assert(strings(args@) =~= seq![flag@, argument@]);
    }
    Invocation { phase, program: String::from_str("cmake"), args }
}

/// Decides the next step for one preset. `configured` and `built` are the
/// reports of its two launches as far as they have been made.
pub fn config_and_build(
    preset: &str,
    binary_dir: &str,
    configured: Option<&ProcessReport>,
    built: Option<&ProcessReport>,
) -> (r: Step)
    ensures
        r@ == preset_step(preset@, binary_dir@, opt_report_view(configured), opt_report_view(built)),
{
    let first = match configured {
        None => { return Step::Launch(invocation(Phase::Configure, preset)); },
        Some(report) => report,
    };
    if let Err(cause) = cmake(first) {
        return Step::Failed(PhaseError::Configure(cause));
    }
    let second = match built {
        None => { return Step::Launch(invocation(Phase::Build, binary_dir)); },
        Some(report) => report,
    };
    if let Err(cause) = cmake(second) {
        return Step::Failed(PhaseError::Build(cause));
    }
    Step::Done
}

/// The models of the presets that a sequence of references refers to.
pub open spec fn chosen_views(chosen: Seq<&Preset>) -> Seq<PresetView> {
    referents(chosen).map_values(|preset: Preset| preset@)
}

/// The separator that names a preset.
fn banner(label: &str) -> (r: String)
    ensures
        r@ == banner_text(label@),
{
    let mut text = String::from_str("----- ");
    text.append(label);
    text.append(" -----");
    text
}

/// Decides the next step of the whole run. `reports` holds what came of the
/// launches made so far, in the order they were made. The presets are taken
/// strictly in order, configure before build, and the first failed launch
/// ends the run: from then on the answer is `Abort`, whatever else is
/// reported. A launch and an abort say which preset they are about, by its
/// position in `chosen`.
pub fn next_step(chosen: &Vec<&Preset>, reports: &Vec<ProcessReport>) -> (r: RunStep)
    requires
        forall|i: int| 0 <= i < chosen@.len() ==> (#[trigger] chosen@[i]).binary_dir is Some,
    ensures
        r@ == run_step(chosen_views(chosen@), report_views(reports@)),
        r matches RunStep::Launch { preset, .. } ==> preset < chosen.len(),
        r matches RunStep::Abort { preset, .. } ==> preset < chosen.len(),
{
    let ghost presets = chosen_views(chosen@);
    let ghost known = report_views(reports@);
    let mut k: usize = 0;
    while k < chosen.len()
        invariant
            k <= chosen.len(),
            2 * k <= reports.len(),
            presets == chosen_views(chosen@),
            known == report_views(reports@),
            run_step(presets, known) == run_step_from(presets, known, k as int),
            forall|i: int| 0 <= i < chosen@.len() ==> (#[trigger] chosen@[i]).binary_dir is Some,
        decreases chosen.len() - k,
    {
        let preset = chosen[k];
        let first: usize = 2 * k;
        let configured = if first < reports.len() {
            Some(&reports[first])
        } else {
            None
        };
        let built = if first < reports.len() && first + 1 < reports.len() {
            Some(&reports[first + 1])
        } else {
            None
        };
        let binary_dir = preset.binary_dir.as_ref().unwrap();
        proof {
            assert(presets[k as int] == (*preset)@);
            assert(opt_report_view(configured) == report_at(known, 2 * k));
            assert(opt_report_view(built) == report_at(known, 2 * k + 1));
        }
        match config_and_build(preset.name.as_str(), binary_dir.as_str(), configured, built) {
            Step::Done => {
                k += 1;
            },
            Step::Launch(invocation) => {
                let banner = match invocation.phase {
                    Phase::Configure => Some(banner(preset.label())),
                    Phase::Build => None,
                };
                return RunStep::Launch { preset: k, banner, invocation };
            },
            Step::Failed(error) => {
                return RunStep::Abort { preset: k, error };
            },
        }
    }
    RunStep::Finished
}

/// Every launch reported below `bound` succeeded.
pub open spec fn all_succeeded(reports: Seq<ReportView>, bound: int) -> bool {
    forall|j: int| 0 <= j < bound && j < reports.len() ==> cmake_outcome(#[trigger] reports[j]) is Ok
}

/// The launch that the run makes at `position`: configure of preset
/// `position / 2` at even positions, its build at odd ones.
pub open spec fn planned_launch(chosen: Seq<PresetView>, position: int) -> RunStepView {
    let preset = chosen[position / 2];
    if position % 2 == 0 {
        RunStepView::Launch {
            preset: position / 2,
            banner: Some(banner_text(preset.label())),
            invocation: configure_invocation(preset.name),
        }
    } else {
        RunStepView::Launch {
            preset: position / 2,
            banner: None,
            invocation: build_invocation(preset.binary_dir->0),
        }
    }
}

/// While every launch so far succeeded, the run goes through the presets in
/// order, configure then build for each, and finishes after the last build.
pub proof fn run_follows_the_plan(chosen: Seq<PresetView>, reports: Seq<ReportView>)
    requires
        all_succeeded(reports, 2 * chosen.len() as int),
    ensures
        run_step(chosen, reports) == if reports.len() >= 2 * chosen.len() {
            RunStepView::Finished
        } else {
            planned_launch(chosen, reports.len() as int)
        },
{
    clean_run_from(chosen, reports, 0);
}

/// When the configure launch of the preset at `failed` fails after all
/// earlier launches succeeded, the run aborts with that failure, and stays
/// aborted whatever is reported afterwards: neither that preset's build nor
/// any launch of a later preset is ever asked for.
pub proof fn configure_failure_ends_the_run(
    chosen: Seq<PresetView>,
    reports: Seq<ReportView>,
    failed: int,
    cause: CmakeErrorView,
)
    requires
        0 <= failed < chosen.len(),
        2 * failed < reports.len(),
        all_succeeded(reports, 2 * failed),
        cmake_outcome(reports[2 * failed]) == Err::<(), CmakeErrorView>(cause),
    ensures
        run_step(chosen, reports) == (RunStepView::Abort {
            preset: failed,
            error: PhaseErrorView::Configure(cause),
        }),
{
    failed_run_from(chosen, reports, 0, 2 * failed);
}

/// When the build launch of the preset at `failed` fails after all earlier
/// launches succeeded, the run aborts with that failure, and no launch of a
/// later preset is ever asked for.
pub proof fn build_failure_ends_the_run(
    chosen: Seq<PresetView>,
    reports: Seq<ReportView>,
    failed: int,
    cause: CmakeErrorView,
)
    requires
        0 <= failed < chosen.len(),
        2 * failed + 1 < reports.len(),
        all_succeeded(reports, 2 * failed + 1),
        cmake_outcome(reports[2 * failed + 1]) == Err::<(), CmakeErrorView>(cause),
    ensures
        run_step(chosen, reports) == (RunStepView::Abort {
            preset: failed,
            error: PhaseErrorView::Build(cause),
        }),
{
    failed_run_from(chosen, reports, 0, 2 * failed + 1);
}

proof fn clean_run_from(chosen: Seq<PresetView>, reports: Seq<ReportView>, from: int)
    requires
        0 <= from <= chosen.len(),
        2 * from <= reports.len(),
        all_succeeded(reports, 2 * chosen.len() as int),
    ensures
        run_step_from(chosen, reports, from) == if reports.len() >= 2 * chosen.len() {
            RunStepView::Finished
        } else {
            planned_launch(chosen, reports.len() as int)
        },
    decreases chosen.len() - from,
{
    if from < chosen.len() {
        if 2 * from + 1 < reports.len() {
            assert(cmake_outcome(reports[2 * from]) is Ok);
            assert(cmake_outcome(reports[2 * from + 1]) is Ok);
            clean_run_from(chosen, reports, from + 1);
        } else if 2 * from < reports.len() {
            assert(cmake_outcome(reports[2 * from]) is Ok);
        }
    }
}

proof fn failed_run_from(chosen: Seq<PresetView>, reports: Seq<ReportView>, from: int, at: int)
    requires
        0 <= from,
        2 * from <= at < reports.len(),
        at < 2 * chosen.len(),
        all_succeeded(reports, at),
        cmake_outcome(reports[at]) is Err,
    ensures
        run_step_from(chosen, reports, from) == (RunStepView::Abort {
            preset: at / 2,
            error: if at % 2 == 0 {
                PhaseErrorView::Configure(cmake_outcome(reports[at])->Err_0)
            } else {
                PhaseErrorView::Build(cmake_outcome(reports[at])->Err_0)
            },
        }),
    decreases chosen.len() - from,
{
    if 2 * from + 1 < at {
        assert(cmake_outcome(reports[2 * from]) is Ok);
        assert(cmake_outcome(reports[2 * from + 1]) is Ok);
        failed_run_from(chosen, reports, from + 1, at);
    } else if 2 * from < at {
        assert(cmake_outcome(reports[2 * from]) is Ok);
    }
}


} // verus!
