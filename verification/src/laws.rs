//! What holds of every execution, whatever the driver answers. The laws
//! are stated over a model of what the actions do to the host.

use crate::directive::directive;
use crate::engine::{EngineView, JobView, PhaseView, Step};
use crate::language::{family_of, RuntimeFamily};
use crate::outcome::{FailureClassView, OutcomeView};
use crate::protocol::{exit, ActionView, EventView, Platform};
use crate::toolchain::{
    binary_file, environment_marker, source_file, BaselineTool, RunnerPackage,
};
use vstd::prelude::*;
use vstd::utf8::encode_utf8;

verus! {

/// What the actions of an execution have done to the host.
pub struct World {
    /// The environment markers that exist.
    pub markers: Set<Seq<char>>,
    /// The temporary files that the execution may have left on disk.
    pub artifacts: Set<Seq<char>>,
    /// The working directories that were entered and not restored.
    pub depth: int,
    /// Whether the host refused to remove a file or to restore the
    /// working directory.
    pub refused: bool,
    /// The environments that were created.
    pub creations: nat,
    /// The dependencies that were installed as a remediation.
    pub installs: nat,
    /// The runs of the fragment, the interactive run not counted.
    pub runs: nat,
}

/// The host before an execution, with the markers that exist.
pub open spec fn fresh(markers: Set<Seq<char>>) -> World {
    World {
        markers,
        artifacts: Set::empty(),
        depth: 0,
        refused: false,
        creations: 0,
        installs: 0,
        runs: 0,
    }
}

/// The host after a process, asked for in `state`, was answered by
/// `event`. The compiler may leave a binary; the creation of an
/// environment, if it ran, leaves the marker of the environment.
pub open spec fn process_effect(world: World, state: EngineView, event: EventView) -> World {
    match state {
        EngineView::Fragment(job, PhaseView::Compiling) => World {
            artifacts: world.artifacts.insert(binary_file(job.platform)),
            ..world
        },
        EngineView::Fragment(job, PhaseView::CreatingEnvironment { .. })
        | EngineView::Fragment(job, PhaseView::InitializingManifest) => if exit(event) is Ok {
            World {
                markers: world.markers.insert(environment_marker(job.family)),
                creations: world.creations + 1,
                ..world
            }
        } else {
            world
        },
        EngineView::Fragment(_, PhaseView::Running) => World { runs: world.runs + 1, ..world },
        EngineView::Fragment(_, PhaseView::Remediating) => World {
            installs: world.installs + 1,
            ..world
        },
        _ => world,
    }
}

/// The host after `action`, asked for in `state`, was answered by `event`.
pub open spec fn effect(
    world: World,
    state: EngineView,
    action: ActionView,
    event: EventView,
) -> World {
    match action {
        ActionView::EnterDirectory(_) => if event == EventView::Completed {
            World { depth: world.depth + 1, ..world }
        } else {
            world
        },
        ActionView::RestoreDirectory => if event is Failed {
            World { refused: true, ..world }
        } else {
            World { depth: world.depth - 1, ..world }
        },
        ActionView::WriteFile { name, bytes } => World {
            artifacts: world.artifacts.insert(name),
            ..world
        },
        ActionView::RemoveFile(name) => if event is Failed {
            World { refused: true, ..world }
        } else {
            World { artifacts: world.artifacts.remove(name), ..world }
        },
        ActionView::Run(_) => process_effect(world, state, event),
        _ => world,
    }
}

/// A moment of an execution: the state of the engine, the action that it
/// waits for, and the host before that action.
pub struct Moment {
    pub state: EngineView,
    pub pending: ActionView,
    pub world: World,
}

/// The first moment of an execution.
pub open spec fn first(
    code: Seq<char>,
    language: Seq<char>,
    workdir: Option<Seq<char>>,
    platform: Platform,
    markers: Set<Seq<char>>,
) -> Moment {
    let (state, pending) = EngineView::start(code, language, workdir, platform);
    Moment { state, pending, world: fresh(markers) }
}

/// The moment after the pending action was answered by `event`.
pub open spec fn next(moment: Moment, event: EventView) -> Moment {
    let (state, pending) = moment.state.step(event);
    Moment { state, pending, world: effect(moment.world, moment.state, moment.pending, event) }
}

/// The moment after the answers `events`, one after the other.
pub open spec fn after(moment: Moment, events: Seq<EventView>) -> Moment
    decreases events.len(),
{
    if events.len() == 0 {
        moment
    } else {
        after(next(moment, events[0]), events.drop_first())
    }
}

/// Whether an answer to a probe tells the truth about the host.
pub open spec fn truthful(moment: Moment, event: EventView) -> bool {
    moment.pending matches ActionView::Probe(path) ==> event == EventView::Present(
        moment.world.markers.contains(path),
    )
}

/// Whether every answer to a probe among `events` tells the truth.
pub open spec fn all_truthful(moment: Moment, events: Seq<EventView>) -> bool
    decreases events.len(),
{
    events.len() == 0 || (truthful(moment, events[0]) && all_truthful(
        next(moment, events[0]),
        events.drop_first(),
    ))
}

/// The temporary files that a fragment of `family` may have on disk while
/// it is run.
pub open spec fn working_files(family: RuntimeFamily, platform: Platform) -> Set<Seq<char>> {
    if family == RuntimeFamily::CompiledNative {
        set![source_file(family), binary_file(platform)]
    } else {
        set![source_file(family)]
    }
}

/// The temporary files that may stay when the execution is over: the
/// source of a markup fragment, which the viewer reads.
pub open spec fn lasting_files(family: RuntimeFamily) -> Set<Seq<char>> {
    if family == RuntimeFamily::Markup {
        set![source_file(family)]
    } else {
        Set::empty()
    }
}

/// The remediations that a run has spent.
pub open spec fn spent(job: JobView) -> nat {
    if job.remediated {
        1
    } else {
        0
    }
}

/// The working directories that a run has entered.
pub open spec fn entered(job: JobView) -> int {
    if job.entered {
        1
    } else {
        0
    }
}

/// What holds of the host while a fragment is in `phase`.
pub open spec fn tidy_phase(job: JobView, phase: PhaseView, pending: ActionView, w: World) -> bool {
    let files = working_files(job.family, job.platform);
    match phase {
        PhaseView::Entering => {
            &&& pending is EnterDirectory
            &&& !job.entered && !job.remediated
            &&& w.depth == 0 && w.artifacts == Set::<Seq<char>>::empty() && !w.refused
            &&& w.installs == 0 && w.runs == 0
        },
        PhaseView::Writing => {
            &&& pending == (ActionView::WriteFile {
                name: source_file(job.family),
                bytes: encode_utf8(job.source),
            })
            &&& w.depth == entered(job) && w.artifacts.subset_of(files) && !w.refused
            &&& w.installs == spent(job) && w.runs == spent(job)
        },
        PhaseView::Probing => {
            &&& pending is Probe
            &&& w.depth == entered(job) && w.artifacts.subset_of(files) && !w.refused
            &&& w.installs == spent(job) && w.runs == spent(job)
        },
        PhaseView::Pausing { .. } => {
            &&& pending is Wait
            &&& w.depth == entered(job) && w.artifacts.subset_of(files) && !w.refused
            &&& w.installs == spent(job) && w.runs == spent(job)
        },
        PhaseView::CreatingEnvironment { .. }
        | PhaseView::InstallingInterpreter
        | PhaseView::UpgradingTool { .. }
        | PhaseView::InitializingManifest
        | PhaseView::InstallingRunner { .. }
        | PhaseView::Running => {
            &&& pending is Run
            &&& w.depth == entered(job) && w.artifacts.subset_of(files) && !w.refused
            &&& w.installs == spent(job) && w.runs == spent(job)
        },
        PhaseView::Compiling => {
            &&& pending is Run
            &&& job.family == RuntimeFamily::CompiledNative
            &&& w.depth == entered(job) && w.artifacts.subset_of(files) && !w.refused
            &&& w.installs == spent(job) && w.runs == spent(job)
        },
        PhaseView::RunningInteractive => {
            &&& pending is Run
            &&& w.depth == entered(job) && w.artifacts.subset_of(files) && !w.refused
            &&& w.installs == spent(job) && w.runs <= spent(job) + 1
        },
        PhaseView::Remediating => {
            &&& pending is Run
            &&& job.remediated
            &&& w.depth == entered(job) && w.artifacts.subset_of(files) && !w.refused
            &&& w.installs == 0 && w.runs == 1
        },
        PhaseView::RemovingSource { .. } => {
            &&& pending == ActionView::RemoveFile(source_file(job.family))
            &&& job.family != RuntimeFamily::Markup
            &&& w.depth == entered(job) && w.artifacts.subset_of(files) && !w.refused
            &&& w.installs == spent(job) && w.runs <= spent(job) + 1
        },
        PhaseView::RemovingBinary { .. } => {
            &&& pending == ActionView::RemoveFile(binary_file(job.platform))
            &&& job.family != RuntimeFamily::Markup
            &&& w.depth == entered(job)
            &&& w.refused || w.artifacts.subset_of(set![binary_file(job.platform)])
            &&& w.installs == spent(job) && w.runs <= spent(job) + 1
        },
        PhaseView::Restoring { .. } => {
            &&& pending == ActionView::RestoreDirectory
            &&& w.depth == 1
            &&& w.refused || w.artifacts.subset_of(lasting_files(job.family))
            &&& w.installs == spent(job) && w.runs <= spent(job) + 1
        },
    }
}

/// What holds of the host when the execution is over.
pub open spec fn settled(w: World, family: RuntimeFamily) -> bool {
    &&& w.refused || (w.depth == 0 && w.artifacts.subset_of(lasting_files(family)))
    &&& w.installs <= 1
    &&& w.runs <= w.installs + 1
}

/// What an execution was started with.
pub struct Setting {
    pub code: Seq<char>,
    /// The family whose rules the execution follows: that of the tag,
    /// where it resolves.
    pub family: RuntimeFamily,
    pub platform: Platform,
    /// The environment markers that exist at the start.
    pub markers: Set<Seq<char>>,
}

/// The family whose rules an execution follows.
pub open spec fn family_in_force(language: Seq<char>) -> RuntimeFamily {
    match family_of(language) {
        Some(family) => family,
        None => RuntimeFamily::Shell,
    }
}

/// Whether `job` is the run that `setting` started.
pub open spec fn belongs(job: JobView, setting: Setting) -> bool {
    &&& directive(setting.code) is None
    &&& job.family == setting.family
    &&& job.platform == setting.platform
    &&& job.source == setting.code
}

/// What holds at every moment of an execution.
pub open spec fn tidy(moment: Moment, setting: Setting) -> bool {
    match moment.state {
        EngineView::Scaffolding | EngineView::Launching { .. } => {
            &&& directive(setting.code) is Some
            &&& moment.pending is Run
            &&& moment.world == fresh(setting.markers)
        },
        EngineView::Finished => {
            &&& moment.pending is Finish
            &&& settled(moment.world, setting.family)
            &&& directive(setting.code) is Some ==> moment.world == fresh(setting.markers)
        },
        EngineView::Fragment(job, phase) => {
            &&& belongs(job, setting)
            &&& tidy_phase(job, phase, moment.pending, moment.world)
        },
    }
}

/// Whether a state and its action are tidy on the host `w`.
pub open spec fn tidy_step(step: Step, w: World, setting: Setting) -> bool {
    tidy(Moment { state: step.0, pending: step.1, world: w }, setting)
}

/// What holds of the host before the fragment has run in this pass.
pub open spec fn before_run(job: JobView, w: World) -> bool {
    &&& w.depth == entered(job)
    &&& w.artifacts.subset_of(working_files(job.family, job.platform))
    &&& !w.refused
    &&& w.installs == spent(job)
    &&& w.runs == spent(job)
}

/// What holds of the host once the fragment may have run in this pass.
pub open spec fn after_run(job: JobView, w: World) -> bool {
    &&& w.depth == entered(job)
    &&& w.artifacts.subset_of(working_files(job.family, job.platform))
    &&& !w.refused
    &&& w.installs == spent(job)
    &&& w.runs <= spent(job) + 1
}

proof fn lemma_tidy_first(
    code: Seq<char>,
    language: Seq<char>,
    workdir: Option<Seq<char>>,
    platform: Platform,
    markers: Set<Seq<char>>,
)
    ensures
        tidy(
            first(code, language, workdir, platform, markers),
            Setting { code, family: family_in_force(language), platform, markers },
        ),
{
}

proof fn lemma_restore(job: JobView, outcome: OutcomeView, w: World, setting: Setting)
    requires
        belongs(job, setting),
        w.depth == entered(job),
        w.refused || w.artifacts.subset_of(lasting_files(job.family)),
        w.installs == spent(job),
        w.runs <= spent(job) + 1,
    ensures
        tidy_step(job.restore(outcome), w, setting),
{
}

proof fn lemma_cleanup(job: JobView, outcome: OutcomeView, w: World, setting: Setting)
    requires
        belongs(job, setting),
        after_run(job, w),
    ensures
        tidy_step(job.cleanup(outcome), w, setting),
{
    if job.family == RuntimeFamily::Markup {
        lemma_restore(job, outcome, w, setting);
    }
}

proof fn lemma_run(job: JobView, w: World, setting: Setting)
    requires
        belongs(job, setting),
        before_run(job, w),
    ensures
        tidy_step(job.run(), w, setting),
        tidy_step(job.provisioned(), w, setting),
        tidy_step(job.dispatch(), w, setting),
        tidy_step(job.write(), w, setting),
        forall|tool: BaselineTool, failures: u8|
            tidy_step(#[trigger] job.upgrade(tool, failures), w, setting),
        forall|second_try: bool|
            tidy_step(#[trigger] job.create_environment(second_try), w, setting),
        forall|package: RunnerPackage|
            tidy_step(#[trigger] job.install_runner(package), w, setting),
{
}

/// The steps of setting up: nothing of the host changes but what the
/// creation of an environment leaves.
proof fn lemma_tidy_setup(moment: Moment, event: EventView, setting: Setting)
    requires
        tidy(moment, setting),
        moment.state matches EngineView::Fragment(_, phase) && (phase is Entering || phase
            is Writing || phase is Probing || phase is CreatingEnvironment || phase
            is InstallingInterpreter || phase is UpgradingTool || phase is Pausing || phase
            is InitializingManifest || phase is InstallingRunner || phase is Compiling),
    ensures
        tidy(next(moment, event), setting),
{
    let w = effect(moment.world, moment.state, moment.pending, event);
    match moment.state {
        EngineView::Fragment(job, phase) => {
            match phase {
                PhaseView::Entering => {
                    let inside = JobView { entered: true, ..job };
                    if event == EventView::Completed {
                        lemma_run(inside, w, setting);
                    }
                },
                _ => {
                    lemma_run(job, w, setting);
                    assert(after_run(job, w));
                    assert forall|outcome: OutcomeView|
                        tidy_step(#[trigger] job.cleanup(outcome), w, setting) by {
                        lemma_cleanup(job, outcome, w, setting);
                    }
                },
            }
        },
        _ => {},
    }
}

/// The run of the fragment and what follows a failure.
proof fn lemma_tidy_run(moment: Moment, event: EventView, setting: Setting)
    requires
        tidy(moment, setting),
        moment.state matches EngineView::Fragment(_, phase) && (phase is Running || phase
            is RunningInteractive || phase is Remediating),
    ensures
        tidy(next(moment, event), setting),
{
    let w = effect(moment.world, moment.state, moment.pending, event);
    match moment.state {
        EngineView::Fragment(job, phase) => {
            match phase {
                PhaseView::Remediating => {
                    let again = JobView { remediated: true, ..job };
                    assert(again == job);
                    lemma_run(job, w, setting);
                },
                _ => {},
            }
            assert(after_run(job, w));
            assert forall|outcome: OutcomeView|
                tidy_step(#[trigger] job.cleanup(outcome), w, setting) by {
                lemma_cleanup(job, outcome, w, setting);
            }
        },
        _ => {},
    }
}

/// The steps of cleaning up.
proof fn lemma_tidy_cleanup(moment: Moment, event: EventView, setting: Setting)
    requires
        tidy(moment, setting),
        moment.state matches EngineView::Fragment(_, phase) && (phase is RemovingSource || phase
            is RemovingBinary || phase is Restoring),
    ensures
        tidy(next(moment, event), setting),
{
    let w = effect(moment.world, moment.state, moment.pending, event);
    match moment.state {
        EngineView::Fragment(job, phase) => {
            match phase {
                PhaseView::RemovingSource { outcome } => {
                    if job.family != RuntimeFamily::CompiledNative {
                        lemma_restore(job, outcome, w, setting);
                    }
                },
                PhaseView::RemovingBinary { outcome } => {
                    lemma_restore(job, outcome, w, setting);
                },
                _ => {},
            }
        },
        _ => {},
    }
}

/// Every step of an execution keeps the host tidy.
proof fn lemma_tidy_next(moment: Moment, event: EventView, setting: Setting)
    requires
        tidy(moment, setting),
    ensures
        tidy(next(moment, event), setting),
{
    match moment.state {
        EngineView::Fragment(job, phase) => {
            if phase is Running || phase is RunningInteractive || phase is Remediating {
                lemma_tidy_run(moment, event, setting);
            } else if phase is RemovingSource || phase is RemovingBinary || phase is Restoring {
                lemma_tidy_cleanup(moment, event, setting);
            } else {
                lemma_tidy_setup(moment, event, setting);
            }
        },
        _ => {},
    }
}

proof fn lemma_tidy_after(moment: Moment, events: Seq<EventView>, setting: Setting)
    requires
        tidy(moment, setting),
    ensures
        tidy(after(moment, events), setting),
    decreases events.len(),
{
    if events.len() > 0 {
        lemma_tidy_next(moment, events[0], setting);
        lemma_tidy_after(next(moment, events[0]), events.drop_first(), setting);
    }
}

/// Whether the fragments of `family` are run in an environment that the
/// engine sets up.
pub open spec fn has_environment(family: RuntimeFamily) -> bool {
    family == RuntimeFamily::Python || family == RuntimeFamily::Node || family
        == RuntimeFamily::TypeScript
}

/// What holds of the environment at every moment of an execution whose
/// probes are answered truthfully: it was created at most once, and only
/// where its marker was absent.
pub open spec fn provisioned_once(moment: Moment, setting: Setting) -> bool {
    let marker = environment_marker(setting.family);
    let w = moment.world;
    &&& setting.markers.contains(marker) ==> w.markers.contains(marker)
    &&& w.creations == if w.markers.contains(marker) && !setting.markers.contains(marker) {
        1nat
    } else {
        0nat
    }
    &&& match moment.state {
        EngineView::Fragment(job, phase) => match phase {
            PhaseView::Probing => moment.pending == ActionView::Probe(marker),
            PhaseView::CreatingEnvironment { .. }
            | PhaseView::InstallingInterpreter
            | PhaseView::InitializingManifest => !w.markers.contains(marker),
            PhaseView::UpgradingTool { .. }
            | PhaseView::Pausing { .. }
            | PhaseView::InstallingRunner { .. } => w.markers.contains(marker),
            PhaseView::Running | PhaseView::RunningInteractive | PhaseView::Remediating =>
                has_environment(job.family) ==> w.markers.contains(marker),
            _ => true,
        },
        _ => true,
    }
}

proof fn lemma_provisioned_once_next(moment: Moment, event: EventView, setting: Setting)
    requires
        tidy(moment, setting),
        provisioned_once(moment, setting),
        truthful(moment, event),
    ensures
        provisioned_once(next(moment, event), setting),
{
}

proof fn lemma_provisioned_once_after(moment: Moment, events: Seq<EventView>, setting: Setting)
    requires
        tidy(moment, setting),
        provisioned_once(moment, setting),
        all_truthful(moment, events),
    ensures
        provisioned_once(after(moment, events), setting),
    decreases events.len(),
{
    if events.len() > 0 {
        lemma_tidy_next(moment, events[0], setting);
        lemma_provisioned_once_next(moment, events[0], setting);
        lemma_provisioned_once_after(next(moment, events[0]), events.drop_first(), setting);
    }
}

/// Whether an outcome may be handed to the caller: a failure that the
/// engine answers itself is none.
pub open spec fn is_final(outcome: OutcomeView) -> bool {
    match outcome {
        Ok(_) => true,
        Err(failure) => !failure.is_recoverable(),
    }
}

/// Whether the outcome that a moment holds, if it holds one, may be
/// handed to the caller.
pub open spec fn holds_final(moment: Moment) -> bool {
    &&& moment.pending matches ActionView::Finish(outcome) ==> is_final(outcome)
    &&& match moment.state {
        EngineView::Fragment(_, PhaseView::RemovingSource { outcome })
        | EngineView::Fragment(_, PhaseView::RemovingBinary { outcome })
        | EngineView::Fragment(_, PhaseView::Restoring { outcome }) => is_final(outcome),
        _ => true,
    }
}

proof fn lemma_holds_final_next(moment: Moment, event: EventView)
    requires
        holds_final(moment),
    ensures
        holds_final(next(moment, event)),
{
}

proof fn lemma_holds_final_after(moment: Moment, events: Seq<EventView>)
    requires
        holds_final(moment),
    ensures
        holds_final(after(moment, events)),
    decreases events.len(),
{
    if events.len() > 0 {
        lemma_holds_final_next(moment, events[0]);
        lemma_holds_final_after(next(moment, events[0]), events.drop_first());
    }
}

/// The source file holds the fragment, byte for byte: whenever the engine
/// asks for a file to be written, the file is the source file of the
/// language and the bytes are the UTF-8 form of the fragment.
pub proof fn lemma_source_written_exactly(
    code: Seq<char>,
    language: Seq<char>,
    workdir: Option<Seq<char>>,
    platform: Platform,
    markers: Set<Seq<char>>,
    events: Seq<EventView>,
)
    ensures
        ({
            let end = after(first(code, language, workdir, platform, markers), events);
            end.pending matches ActionView::WriteFile { name, bytes } ==> name == source_file(
                family_in_force(language),
            ) && bytes == encode_utf8(code)
        }),
{
    let setting = Setting { code, family: family_in_force(language), platform, markers };
    lemma_tidy_first(code, language, workdir, platform, markers);
    lemma_tidy_after(first(code, language, workdir, platform, markers), events, setting);
}

/// When an execution is over, whatever the driver answered, no temporary
/// file that it made is left on disk, but for the source of a markup
/// fragment; unless the host refused a removal.
pub proof fn lemma_no_artifact_remains(
    code: Seq<char>,
    language: Seq<char>,
    workdir: Option<Seq<char>>,
    platform: Platform,
    markers: Set<Seq<char>>,
    events: Seq<EventView>,
)
    ensures
        ({
            let end = after(first(code, language, workdir, platform, markers), events);
            end.state is Finished && !end.world.refused ==> {
                &&& end.world.artifacts.subset_of(set![source_file(RuntimeFamily::Markup)])
                &&& (directive(code) is Some || family_of(language) != Some(
                    RuntimeFamily::Markup,
                )) ==> end.world.artifacts == Set::<Seq<char>>::empty()
            }
        }),
{
    let setting = Setting { code, family: family_in_force(language), platform, markers };
    lemma_tidy_first(code, language, workdir, platform, markers);
    lemma_tidy_after(first(code, language, workdir, platform, markers), events, setting);
    let end = after(first(code, language, workdir, platform, markers), events);
    if end.state is Finished && !end.world.refused {
        if directive(code) is Some || family_of(language) != Some(RuntimeFamily::Markup) {
            assert(end.world.artifacts =~= Set::<Seq<char>>::empty());
        }
    }
}

/// When an execution is over, whatever the driver answered, the working
/// directory is the one from before; unless the host refused to restore
/// it.
pub proof fn lemma_working_directory_restored(
    code: Seq<char>,
    language: Seq<char>,
    workdir: Option<Seq<char>>,
    platform: Platform,
    markers: Set<Seq<char>>,
    events: Seq<EventView>,
)
    ensures
        ({
            let end = after(first(code, language, workdir, platform, markers), events);
            end.state is Finished && !end.world.refused ==> end.world.depth == 0
        }),
{
    let setting = Setting { code, family: family_in_force(language), platform, markers };
    lemma_tidy_first(code, language, workdir, platform, markers);
    lemma_tidy_after(first(code, language, workdir, platform, markers), events, setting);
}

/// At every moment of an execution, whatever the driver answered, at most
/// one dependency has been installed as a remediation, and the fragment
/// has been run at most once more than that.
pub proof fn lemma_bounded_retry(
    code: Seq<char>,
    language: Seq<char>,
    workdir: Option<Seq<char>>,
    platform: Platform,
    markers: Set<Seq<char>>,
    events: Seq<EventView>,
)
    ensures
        ({
            let end = after(first(code, language, workdir, platform, markers), events);
            end.world.installs <= 1 && end.world.runs <= end.world.installs + 1
        }),
{
    let setting = Setting { code, family: family_in_force(language), platform, markers };
    lemma_tidy_first(code, language, workdir, platform, markers);
    lemma_tidy_after(first(code, language, workdir, platform, markers), events, setting);
}

/// Provisioning is idempotent. In an execution whose probes are answered
/// truthfully, an environment whose marker exists is not created again,
/// and one whose marker is absent is created at most once: exactly once,
/// where the run of the fragment is reached.
pub proof fn lemma_environment_created_once(
    code: Seq<char>,
    language: Seq<char>,
    workdir: Option<Seq<char>>,
    platform: Platform,
    markers: Set<Seq<char>>,
    events: Seq<EventView>,
)
    requires
        all_truthful(first(code, language, workdir, platform, markers), events),
    ensures
        ({
            let end = after(first(code, language, workdir, platform, markers), events);
            let marker = environment_marker(family_in_force(language));
            &&& end.world.creations <= 1
            &&& markers.contains(marker) ==> end.world.creations == 0
            &&& markers.contains(marker) ==> end.world.markers.contains(marker)
            &&& end.world.creations == 1 ==> end.world.markers.contains(marker)
            &&& match end.state {
                EngineView::Fragment(job, PhaseView::Running) => has_environment(job.family)
                    && !markers.contains(marker) ==> end.world.creations == 1,
                _ => true,
            }
        }),
{
    let setting = Setting { code, family: family_in_force(language), platform, markers };
    lemma_tidy_first(code, language, workdir, platform, markers);
    lemma_provisioned_once_after(
        first(code, language, workdir, platform, markers),
        events,
        setting,
    );
}

/// Two executions of fragments of one family, the second on the host as
/// the first left it: where every probe is answered truthfully, the
/// environment is created at most once in all, and where the first
/// execution created it, the second creates nothing.
pub proof fn lemma_provisioning_twice_creates_once(
    first_code: Seq<char>,
    second_code: Seq<char>,
    language: Seq<char>,
    workdir: Option<Seq<char>>,
    platform: Platform,
    markers: Set<Seq<char>>,
    first_events: Seq<EventView>,
    second_events: Seq<EventView>,
)
    requires
        all_truthful(first(first_code, language, workdir, platform, markers), first_events),
        all_truthful(
            first(
                second_code,
                language,
                workdir,
                platform,
                after(
                    first(first_code, language, workdir, platform, markers),
                    first_events,
                ).world.markers,
            ),
            second_events,
        ),
    ensures
        ({
            let once = after(first(first_code, language, workdir, platform, markers), first_events);
            let twice = after(
                first(second_code, language, workdir, platform, once.world.markers),
                second_events,
            );
            &&& once.world.creations + twice.world.creations <= 1
            &&& once.world.creations == 1 ==> twice.world.creations == 0
        }),
{
    let once = after(first(first_code, language, workdir, platform, markers), first_events);
    lemma_environment_created_once(first_code, language, workdir, platform, markers, first_events);
    lemma_environment_created_once(
        second_code,
        language,
        workdir,
        platform,
        once.world.markers,
        second_events,
    );
}

/// A directive goes past the resolver, the provisioner and the driver: at
/// no moment is a fragment being run, and nothing of the host is touched
/// but by the one process of the directive.
pub proof fn lemma_directive_bypasses_driver(
    code: Seq<char>,
    language: Seq<char>,
    workdir: Option<Seq<char>>,
    platform: Platform,
    markers: Set<Seq<char>>,
    events: Seq<EventView>,
)
    requires
        directive(code) is Some,
    ensures
        ({
            let end = after(first(code, language, workdir, platform, markers), events);
            &&& !(end.state is Fragment)
            &&& end.pending is Run || end.pending is Finish
            &&& end.world == fresh(markers)
        }),
{
    let setting = Setting { code, family: family_in_force(language), platform, markers };
    lemma_tidy_first(code, language, workdir, platform, markers);
    lemma_tidy_after(first(code, language, workdir, platform, markers), events, setting);
}

/// A tag that does not resolve ends the execution before anything is
/// done: the first action hands out `UnsupportedLanguage` with the tag.
pub proof fn lemma_unsupported_language_ends_at_once(
    code: Seq<char>,
    language: Seq<char>,
    workdir: Option<Seq<char>>,
    platform: Platform,
)
    requires
        directive(code) is None,
        family_of(language) is None,
    ensures
        EngineView::start(code, language, workdir, platform) == (
            EngineView::Finished,
            ActionView::Finish(Err(FailureClassView::UnsupportedLanguage(language))),
        ),
{
}

/// A failure that the engine answers itself never reaches the caller: the
/// outcome that is handed out is a result, or a failure of a kind that is
/// final.
pub proof fn lemma_outcome_is_final(
    code: Seq<char>,
    language: Seq<char>,
    workdir: Option<Seq<char>>,
    platform: Platform,
    markers: Set<Seq<char>>,
    events: Seq<EventView>,
)
    ensures
        ({
            let end = after(first(code, language, workdir, platform, markers), events);
            end.pending matches ActionView::Finish(Err(failure)) ==> !failure.is_recoverable()
        }),
{
    lemma_holds_final_after(first(code, language, workdir, platform, markers), events);
}

/// Whether the engine is ending the run: what is left is to remove the
/// temporary files, to restore the working directory and to hand out the
/// outcome, which is `outcome`.
pub open spec fn is_ending(step: Step, outcome: OutcomeView) -> bool {
    match step.0 {
        EngineView::Fragment(_, PhaseView::RemovingSource { outcome: held })
        | EngineView::Fragment(_, PhaseView::RemovingBinary { outcome: held })
        | EngineView::Fragment(_, PhaseView::Restoring { outcome: held }) => held == outcome,
        EngineView::Finished => step.1 == ActionView::Finish(outcome),
        _ => false,
    }
}

/// A failure of the run that follows a remediation is final, whatever its
/// diagnostics say: the run ends and the diagnostics are handed out as
/// they are.
pub proof fn lemma_failure_after_remediation_is_final(job: JobView, event: EventView)
    requires
        job.remediated,
        job.family == RuntimeFamily::Python || job.family == RuntimeFamily::Node,
        exit(event) matches Ok(e) && !e.success,
    ensures
        is_ending(
            job.step(PhaseView::Running, event),
            Err(FailureClassView::ToolFailure(exit(event)->Ok_0.stderr)),
        ),
{
}

/// The interactive run of a Python fragment is final: whatever it comes
/// to, the run ends, and nothing is classified or installed.
pub proof fn lemma_interactive_run_is_final(job: JobView, event: EventView)
    ensures
        exists|outcome: OutcomeView| #[trigger]
            is_ending(job.step(PhaseView::RunningInteractive, event), outcome),
{
    let step = job.step(PhaseView::RunningInteractive, event);
    match step.0 {
        EngineView::Fragment(_, PhaseView::RemovingSource { outcome }) => {
            assert(is_ending(step, outcome));
        },
        EngineView::Fragment(_, PhaseView::Restoring { outcome }) => {
            assert(is_ending(step, outcome));
        },
        _ => {
            assert(step.1 is Finish);
            assert(is_ending(step, step.1->Finish_0));
        },
    }
}

/// The answers that the run of the fragment and what follows it can
/// still take.
pub open spec fn run_steps(remediated: bool) -> nat {
    if remediated {
        4
    } else {
        28
    }
}

/// The answers that the upgrade of `tool` and of the tools after it can
/// still take, when `failures` tries of `tool` have failed.
pub open spec fn upgrade_steps(tool: BaselineTool, failures: u8) -> nat {
    let tries: nat = if failures == 0 {
        5
    } else if failures == 1 {
        3
    } else {
        1
    };
    let others: nat = match tool {
        BaselineTool::Pip => 10,
        BaselineTool::Setuptools => 5,
        BaselineTool::Wheel => 0,
    };
    tries + others
}

/// An upper bound of the answers that an engine in `state` takes before it
/// is finished.
pub open spec fn steps_left(state: EngineView) -> nat {
    match state {
        EngineView::Finished => 0,
        EngineView::Scaffolding | EngineView::Launching { .. } => 1,
        EngineView::Fragment(job, phase) => {
            let run = run_steps(job.remediated);
            match phase {
                PhaseView::Entering => run + 23,
                PhaseView::Writing => run + 22,
                PhaseView::Probing => run + 21,
                PhaseView::CreatingEnvironment { second_try } => if second_try {
                    run + 18
                } else {
                    run + 20
                },
                PhaseView::InstallingInterpreter => run + 19,
                PhaseView::UpgradingTool { tool, failures } => run + 2 + upgrade_steps(
                    tool,
                    failures,
                ),
                PhaseView::Pausing { tool, failures } => run + 3 + upgrade_steps(tool, failures),
                PhaseView::InitializingManifest => run + 3,
                PhaseView::InstallingRunner { package } => match package {
                    RunnerPackage::TypeScript => run + 2,
                    RunnerPackage::TsNode => run + 1,
                },
                PhaseView::Compiling => run + 1,
                PhaseView::Running => run,
                PhaseView::RunningInteractive => 4,
                PhaseView::Remediating => 27,
                PhaseView::RemovingSource { .. } => 3,
                PhaseView::RemovingBinary { .. } => 2,
                PhaseView::Restoring { .. } => 1,
            }
        },
    }
}

/// The most answers that an execution takes.
pub open spec fn most_steps() -> nat {
    51
}

proof fn lemma_steps_of_moves(job: JobView)
    ensures
        forall|outcome: OutcomeView| steps_left(#[trigger] job.restore(outcome).0) <= 1,
        forall|outcome: OutcomeView| steps_left(#[trigger] job.cleanup(outcome).0) <= 3,
        forall|reason: Seq<char>| steps_left(#[trigger] job.abort(reason).0) <= 3,
        steps_left(job.run().0) == run_steps(job.remediated),
        steps_left(job.provisioned().0) <= run_steps(job.remediated) + 2,
        steps_left(job.dispatch().0) <= run_steps(job.remediated) + 21,
        steps_left(job.write().0) == run_steps(job.remediated) + 22,
        forall|tool: BaselineTool, failures: u8|
            steps_left(#[trigger] job.upgrade(tool, failures).0) == run_steps(job.remediated) + 2
                + upgrade_steps(tool, failures),
        forall|second_try: bool|
            steps_left(#[trigger] job.create_environment(second_try).0) <= run_steps(
                job.remediated,
            ) + 20,
        steps_left(job.create_environment(true).0) == run_steps(job.remediated) + 18,
        forall|package: Seq<char>| steps_left(#[trigger] job.remediate(package).0) == 27,
{
    assert forall|outcome: OutcomeView| steps_left(#[trigger] job.cleanup(outcome).0) <= 3 by {
        assert(steps_left(job.restore(outcome).0) <= 1);
    }
    assert forall|reason: Seq<char>| steps_left(#[trigger] job.abort(reason).0) <= 3 by {
        assert(steps_left(job.restore(crate::engine::not_carried_out(reason)).0) <= 1);
    }
}

proof fn lemma_setup_nears_the_end(job: JobView, phase: PhaseView, event: EventView)
    requires
        phase is Entering || phase is Writing || phase is Probing || phase
            is CreatingEnvironment || phase is InstallingInterpreter || phase
            is InitializingManifest || phase is InstallingRunner || phase is Compiling,
    ensures
        steps_left(job.step(phase, event).0) < steps_left(EngineView::Fragment(job, phase)),
{
    lemma_steps_of_moves(job);
    lemma_steps_of_moves(JobView { entered: true, ..job });
}

proof fn lemma_upgrade_nears_the_end(job: JobView, phase: PhaseView, event: EventView)
    requires
        phase is UpgradingTool || phase is Pausing,
    ensures
        steps_left(job.step(phase, event).0) < steps_left(EngineView::Fragment(job, phase)),
{
    lemma_steps_of_moves(job);
}

proof fn lemma_run_nears_the_end(job: JobView, phase: PhaseView, event: EventView)
    requires
        phase is Running || phase is RunningInteractive || phase is Remediating,
    ensures
        steps_left(job.step(phase, event).0) < steps_left(EngineView::Fragment(job, phase)),
{
    lemma_steps_of_moves(job);
    lemma_steps_of_moves(JobView { remediated: true, ..job });
}

proof fn lemma_cleanup_nears_the_end(job: JobView, phase: PhaseView, event: EventView)
    requires
        phase is RemovingSource || phase is RemovingBinary || phase is Restoring,
    ensures
        steps_left(job.step(phase, event).0) < steps_left(EngineView::Fragment(job, phase)),
{
    lemma_steps_of_moves(job);
}

/// Every answer brings the engine nearer to its end.
pub proof fn lemma_step_nears_the_end(state: EngineView, event: EventView)
    ensures
        state is Finished ==> state.step(event).0 is Finished,
        !(state is Finished) ==> steps_left(state.step(event).0) < steps_left(state),
        steps_left(state) <= most_steps(),
{
    match state {
        EngineView::Fragment(job, phase) => {
            if phase is UpgradingTool || phase is Pausing {
                lemma_upgrade_nears_the_end(job, phase, event);
            } else if phase is Running || phase is RunningInteractive || phase is Remediating {
                lemma_run_nears_the_end(job, phase, event);
            } else if phase is RemovingSource || phase is RemovingBinary || phase is Restoring {
                lemma_cleanup_nears_the_end(job, phase, event);
            } else {
                lemma_setup_nears_the_end(job, phase, event);
            }
        },
        _ => {},
    }
}

proof fn lemma_ends_after(moment: Moment, events: Seq<EventView>)
    requires
        steps_left(moment.state) <= events.len(),
    ensures
        after(moment, events).state is Finished,
    decreases events.len(),
{
    lemma_step_nears_the_end(moment.state, if events.len() > 0 {
        events[0]
    } else {
        EventView::Completed
    });
    if events.len() > 0 {
        lemma_ends_after(next(moment, events[0]), events.drop_first());
    }
}

/// No execution goes on for ever: whatever the driver answers, the engine
/// is finished after `most_steps()` answers at the latest.
pub proof fn lemma_execution_ends(
    code: Seq<char>,
    language: Seq<char>,
    workdir: Option<Seq<char>>,
    platform: Platform,
    markers: Set<Seq<char>>,
    events: Seq<EventView>,
)
    requires
        events.len() >= most_steps(),
    ensures
        after(first(code, language, workdir, platform, markers), events).state is Finished,
{
    let start = first(code, language, workdir, platform, markers);
    lemma_step_nears_the_end(start.state, EventView::Completed);
    lemma_ends_after(start, events);
}

} // verus!
