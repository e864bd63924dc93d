//! The helper container: what it is created with, the steps of one run, and
//! the reading of its exit code and output.

use vstd::prelude::*;
use crate::error::Error;
use crate::mount::{mount_views, Mount, MountView};
use crate::text::{decimal, decimal_string, repeated, string_of, texts, trim, trimmed};
use crate::watch::DISABLED_LABEL;

verus! {

/// The label that holds the process id of the process that made a container.
pub const PID_LABEL: &'static str = "com.github.aig787.dockyard.pid";

/// The label that holds the command a helper container was made for.
pub const DOCKYARD_COMMAND_LABEL: &'static str = "com.github.aig787.dockyard.command";

/// The executable that every helper runs.
pub const COMMAND: &'static str = "dockyard";

/// How much a helper says while it runs.
#[derive(Clone, Copy, Debug, PartialEq, Eq, Structural)]
pub struct CommandSettings {
    pub verbosity: u8,
}

impl CommandSettings {
    /// Settings of a quiet helper.
    pub fn new() -> (settings: CommandSettings)
        ensures
            settings.verbosity == 0,
    {
        CommandSettings { verbosity: 0 }
    }
}

/// Sets how verbose the helpers are to be.
pub fn set_command_verbosity(settings: &mut CommandSettings, verbosity: u8)
    ensures
        final(settings).verbosity == verbosity,
{
    settings.verbosity = verbosity;
}

/// The flag that hands a verbosity on: a dash and one `v` per level, or
/// nothing at level zero.
pub open spec fn verbosity_arg(level: u8) -> Seq<char> {
    if level > 0 {
        seq!['-'] + repeated('v', level as nat)
    } else {
        Seq::empty()
    }
}

/// The flag that hands the settings' verbosity on to a helper.
pub fn get_verbosity_arg(settings: &CommandSettings) -> (arg: String)
    ensures
        arg@ == verbosity_arg(settings.verbosity),
{
    let level = settings.verbosity;
    let mut chars: Vec<char> = Vec::new();
    if level > 0 {
        chars.push('-');
        let mut i: u8 = 0;
        while i < level
            invariant
                i <= level,
                chars@ == seq!['-'] + repeated('v', i as nat),
            decreases level - i,
        {
            chars.push('v');
            proof {
                assert(chars@ =~= seq!['-'] + repeated('v', (i + 1) as nat));
            }
            i += 1;
        }
    }
    proof {
        if level == 0 {
            assert(chars@ =~= Seq::<char>::empty());
        }
    }
    string_of(&chars)
}

/// A label of a container.
#[derive(Clone, Debug, PartialEq, Eq)]
pub struct Label {
    pub key: String,
    pub value: String,
}

impl View for Label {
    type V = (Seq<char>, Seq<char>);

    open spec fn view(&self) -> (Seq<char>, Seq<char>) {
        (self.key@, self.value@)
    }
}

/// The views of a sequence of labels.
pub open spec fn label_views(v: Seq<Label>) -> Seq<(Seq<char>, Seq<char>)> {
    Seq::new(v.len(), |i: int| v[i]@)
}

/// Whether no key occurs twice: the labels stand for a map from keys to
/// values, as the daemon holds them.
pub open spec fn distinct_keys(labels: Seq<(Seq<char>, Seq<char>)>) -> bool {
    forall|i: int, j: int| 0 <= i < j < labels.len() ==> labels[i].0 != labels[j].0
}

/// What a helper is asked to do: the mounts it gets, the arguments of the
/// command, and the words that introduce its output in the log.
#[derive(Clone, Debug, PartialEq, Eq)]
pub struct SidecarRequest {
    pub mounts: Vec<Mount>,
    pub args: Vec<String>,
    pub log_prefix: String,
}

/// What a `SidecarRequest` stands for.
pub struct SidecarRequestView {
    pub mounts: Seq<MountView>,
    pub args: Seq<Seq<char>>,
    pub log_prefix: Seq<char>,
}

impl View for SidecarRequest {
    type V = SidecarRequestView;

    open spec fn view(&self) -> SidecarRequestView {
        SidecarRequestView {
            mounts: mount_views(self.mounts@),
            args: texts(self.args@),
            log_prefix: self.log_prefix@,
        }
    }
}

/// The container that runs a helper.
#[derive(Clone, Debug, PartialEq, Eq)]
pub struct SidecarInvocation {
    pub name: String,
    pub image: String,
    pub command: Vec<String>,
    pub labels: Vec<Label>,
    pub mounts: Vec<Mount>,
}

/// The command line of a helper: the executable, the arguments, and the
/// verbosity flag where there is one.
pub open spec fn dockyard_command(args: Seq<Seq<char>>, verbosity: u8) -> Seq<Seq<char>> {
    if verbosity > 0 {
        (seq![COMMAND@] + args).push(verbosity_arg(verbosity))
    } else {
        seq![COMMAND@] + args
    }
}

/// The labels of a helper: the process that owns it, and the mark that keeps
/// it out of scheduled backups.
pub open spec fn sidecar_labels(pid: u32) -> Seq<(Seq<char>, Seq<char>)> {
    seq![(PID_LABEL@, decimal(pid as nat)), (DISABLED_LABEL@, "true"@)]
}

/// The name of a helper container with the given unique part.
pub open spec fn sidecar_name(unique: Seq<char>) -> Seq<char> {
    "dockyard_"@ + unique
}

/// A version 4 UUID in its hyphenated form, from `uuid::Uuid::new_v4` and
/// its `Display`. It is random: nothing is claimed of it. The call gives up
/// only where the system has no random bytes to give.
#[verifier::external_body]
fn fresh_uuid() -> (id: String) {
    uuid::Uuid::new_v4().to_string()
}

/// The command line of a helper.
pub fn helper_command(settings: &CommandSettings, args: Vec<String>) -> (command: Vec<String>)
    ensures
        texts(command@) == dockyard_command(texts(args@), settings.verbosity),
{
    let mut command: Vec<String> = Vec::new();
    command.push(String::from_str(COMMAND));
    let mut args = args;
    let ghost given = args@;
    command.append(&mut args);
    proof {
        assert(texts(command@) =~= seq![COMMAND@] + texts(given));
    }
    let verbosity = get_verbosity_arg(settings);
    if settings.verbosity > 0 {
        command.push(verbosity);
        proof {
            assert(texts(command@) =~= (seq![COMMAND@] + texts(given)).push(
                verbosity_arg(settings.verbosity),
            ));
        }
    }
    command
}

/// The labels of a helper made by the process `pid`.
pub fn helper_labels(pid: u32) -> (labels: Vec<Label>)
    ensures
        label_views(labels@) == sidecar_labels(pid),
        distinct_keys(label_views(labels@)),
{
    let mut labels: Vec<Label> = Vec::new();
    labels.push(Label { key: String::from_str(PID_LABEL), value: decimal_string(pid as u64) });
    labels.push(Label { key: String::from_str(DISABLED_LABEL), value: String::from_str("true") });
    proof {
        assert(label_views(labels@) =~= sidecar_labels(pid));
        helper_labels_have_distinct_keys(pid);
    }
    labels
}

/// The two labels of a helper have different keys.
pub proof fn helper_labels_have_distinct_keys(pid: u32)
    ensures
        distinct_keys(sidecar_labels(pid)),
{
    reveal_strlit("com.github.aig787.dockyard.pid");
    reveal_strlit("com.github.aig787.dockyard.disabled");
    assert(PID_LABEL@.len() != DISABLED_LABEL@.len());
}

/// The container that runs the helper on `args` with `mounts`, named with
/// the given unique part.
pub fn helper_container(
    settings: &CommandSettings,
    mounts: Vec<Mount>,
    args: Vec<String>,
    image: String,
    pid: u32,
    unique: &str,
) -> (invocation: SidecarInvocation)
    ensures
        invocation.name@ == sidecar_name(unique@),
        invocation.image@ == image@,
        texts(invocation.command@) == dockyard_command(texts(args@), settings.verbosity),
        label_views(invocation.labels@) == sidecar_labels(pid),
        mount_views(invocation.mounts@) == mount_views(mounts@),
{
    SidecarInvocation {
        name: String::from_str("dockyard_").concat(unique),
        image,
        command: helper_command(settings, args),
        labels: helper_labels(pid),
        mounts,
    }
}

/// The container that runs the helper on `args` with `mounts`, under a name
/// made unique by a fresh UUID.
pub fn run_dockyard_command(
    settings: &CommandSettings,
    mounts: Vec<Mount>,
    args: Vec<String>,
    image: String,
    pid: u32,
) -> (invocation: SidecarInvocation)
    ensures
        exists|unique: Seq<char>| invocation.name@ == sidecar_name(unique),
        invocation.image@ == image@,
        texts(invocation.command@) == dockyard_command(texts(args@), settings.verbosity),
        label_views(invocation.labels@) == sidecar_labels(pid),
        mount_views(invocation.mounts@) == mount_views(mounts@),
{
    let unique = fresh_uuid();
    helper_container(settings, mounts, args, image, pid, unique.as_str())
}

/// The state of a container as the daemon reports it.
#[derive(Clone, Copy, Debug, PartialEq, Eq, Structural)]
pub enum ContainerStatus {
    Empty,
    Created,
    Running,
    Paused,
    Restarting,
    Removing,
    Exited,
    Dead,
}

/// What an inspection of the helper tells once it has ended.
#[derive(Clone, Copy, Debug, PartialEq, Eq, Structural)]
pub struct Inspection {
    pub status: Option<ContainerStatus>,
    pub exit_code: Option<i64>,
}

/// Whether the daemon can still be asked for the container's output: not
/// while it is dead or being removed.
pub open spec fn logs_available(status: Option<ContainerStatus>) -> bool {
    status != Some(ContainerStatus::Dead) && status != Some(ContainerStatus::Removing)
}

/// The exit code that an inspection reports, zero where it reports none.
pub open spec fn reported_exit_code(inspection: Inspection) -> i64 {
    match inspection.exit_code {
        Some(code) => code,
        None => 0,
    }
}

/// Where a run of a helper stands.
#[derive(Clone, Copy, Debug, PartialEq, Eq, Structural)]
pub enum Phase {
    Ready,
    CheckingImage,
    Creating,
    Starting,
    Waiting,
    Inspecting,
    CollectingLogs,
    /// The container is being removed, and the run has a result to return.
    Removing,
    /// The container is being removed after a failure.
    Discarding,
    Finished,
    Failed,
}

/// Whether the container exists and its removal has not been asked for:
/// from its creation up to the action that removes it.
pub open spec fn container_stands(phase: Phase) -> bool {
    phase == Phase::Starting || phase == Phase::Waiting || phase == Phase::Inspecting || phase
        == Phase::CollectingLogs
}

/// Whether the container was created in this run and the run goes on.
pub open spec fn container_created(phase: Phase) -> bool {
    container_stands(phase) || phase == Phase::Removing || phase == Phase::Discarding
}

/// What the daemon is to be asked next, or how the run ends.
#[derive(Clone, Copy, Debug, PartialEq, Eq, Structural)]
pub enum Action {
    /// Make sure the image is there.
    EnsureImage,
    /// Create the container.
    Create,
    /// Start it.
    Start,
    /// Wait until it exits.
    Wait,
    /// Inspect it.
    Inspect,
    /// Fetch its output, standard output and standard error together.
    FetchLogs,
    /// Remove it by force.
    Remove,
    /// Hand the exit code and the output to the caller.
    Return,
    /// Hand the first error of the daemon to the caller.
    Fail,
}

/// What happened to the last action.
#[derive(Clone, Debug, PartialEq, Eq)]
pub enum Event {
    /// The run is asked to begin.
    Start,
    /// The daemon did what was asked.
    Done,
    /// The daemon failed to do it.
    Failed,
    /// The daemon inspected the container.
    Inspected(Inspection),
    /// The daemon gave the container's output.
    Logs(Vec<String>),
}

/// What an `Event` stands for.
pub enum EventView {
    Start,
    Done,
    Failed,
    Inspected(Inspection),
    Logs(Seq<Seq<char>>),
}

impl View for Event {
    type V = EventView;

    open spec fn view(&self) -> EventView {
        match self {
            Event::Start => EventView::Start,
            Event::Done => EventView::Done,
            Event::Failed => EventView::Failed,
            Event::Inspected(i) => EventView::Inspected(*i),
            Event::Logs(lines) => EventView::Logs(texts(lines@)),
        }
    }
}

/// One run of a helper container.
#[derive(Clone, Debug, PartialEq, Eq)]
pub struct Runner {
    phase: Phase,
    exit_code: i64,
    lines: Vec<String>,
}

/// What a `Runner` stands for.
pub struct RunnerView {
    pub phase: Phase,
    pub exit_code: i64,
    pub lines: Seq<Seq<char>>,
}

impl View for Runner {
    type V = RunnerView;

    closed spec fn view(&self) -> RunnerView {
        RunnerView { phase: self.phase, exit_code: self.exit_code, lines: texts(self.lines@) }
    }
}

/// The state in which every run begins.
pub open spec fn initial() -> RunnerView {
    RunnerView { phase: Phase::Ready, exit_code: 0, lines: Seq::empty() }
}

/// The state after an event, and the action that it calls for.
///
/// The daemon is asked for the image, then to create, start, await and
/// inspect the container. Its output is fetched unless the container is dead
/// or being removed, and a failure to fetch it leaves the output empty. The
/// container is then removed, and only when that is done the run returns.
///
/// A failure before the container exists fails the run at once. Once the
/// container exists, a failure to start, await or inspect it, and an event
/// that answers no action, first has the container removed: the run fails
/// when that removal is answered, whatever the answer. A removal that
/// fails where a result was to be returned fails the run too.
pub open spec fn transition(s: RunnerView, e: EventView) -> (RunnerView, Action) {
    match (s.phase, e) {
        (Phase::Ready, EventView::Start) => (
            RunnerView { phase: Phase::CheckingImage, ..s },
            Action::EnsureImage,
        ),
        (Phase::CheckingImage, EventView::Done) => (
            RunnerView { phase: Phase::Creating, ..s },
            Action::Create,
        ),
        (Phase::Creating, EventView::Done) => (
            RunnerView { phase: Phase::Starting, ..s },
            Action::Start,
        ),
        (Phase::Starting, EventView::Done) => (RunnerView { phase: Phase::Waiting, ..s }, Action::Wait),
        (Phase::Waiting, EventView::Done) => (
            RunnerView { phase: Phase::Inspecting, ..s },
            Action::Inspect,
        ),
        (Phase::Inspecting, EventView::Inspected(i)) => if logs_available(i.status) {
            (
                RunnerView {
                    phase: Phase::CollectingLogs,
                    exit_code: reported_exit_code(i),
                    lines: Seq::empty(),
                },
                Action::FetchLogs,
            )
        } else {
            (
                RunnerView {
                    phase: Phase::Removing,
                    exit_code: reported_exit_code(i),
                    lines: Seq::empty(),
                },
                Action::Remove,
            )
        },
        (Phase::CollectingLogs, EventView::Logs(lines)) => (
            RunnerView { phase: Phase::Removing, exit_code: s.exit_code, lines },
            Action::Remove,
        ),
        (Phase::CollectingLogs, EventView::Failed) => (
            RunnerView { phase: Phase::Removing, exit_code: s.exit_code, lines: Seq::empty() },
            Action::Remove,
        ),
        (Phase::Removing, EventView::Done) => (
            RunnerView { phase: Phase::Finished, ..s },
            Action::Return,
        ),
        _ => if container_stands(s.phase) {
            (RunnerView { phase: Phase::Discarding, ..s }, Action::Remove)
        } else {
            (RunnerView { phase: Phase::Failed, ..s }, Action::Fail)
        },
    }
}

/// The actions that a run issues on a sequence of events, from state `s`.
pub open spec fn actions_of(s: RunnerView, events: Seq<EventView>) -> Seq<Action>
    decreases events.len(),
{
    if events.len() == 0 {
        Seq::empty()
    } else {
        let (next, action) = transition(s, events[0]);
        seq![action] + actions_of(next, events.drop_first())
    }
}

impl Runner {
    /// A run that has not begun.
    pub fn new() -> (runner: Runner)
        ensures
            runner@ == initial(),
    {
        let runner = Runner { phase: Phase::Ready, exit_code: 0, lines: Vec::new() };
        proof {
            assert(texts(runner.lines@) =~= Seq::<Seq<char>>::empty());
        }
        runner
    }

    /// Where the run stands.
    pub fn phase(&self) -> (phase: Phase)
        ensures
            phase == self@.phase,
    {
        self.phase
    }

    /// The exit code of the helper, once it has been inspected.
    pub fn exit_code(&self) -> (code: i64)
        ensures
            code == self@.exit_code,
    {
        self.exit_code
    }

    /// The output of the helper, once it has been fetched.
    pub fn lines(&self) -> (lines: &Vec<String>)
        ensures
            texts(lines@) == self@.lines,
    {
        &self.lines
    }

    /// Takes an event in and says what to do next.
    pub fn step(&mut self, event: Event) -> (action: Action)
        ensures
            (final(self)@, action) == transition(old(self)@, event@),
    {
        let phase = self.phase;
        match event {
            Event::Start => {
                if phase == Phase::Ready {
                    self.phase = Phase::CheckingImage;
                    return Action::EnsureImage;
                }
            },
            Event::Done => {
                if phase == Phase::CheckingImage {
                    self.phase = Phase::Creating;
                    return Action::Create;
                } else if phase == Phase::Creating {
                    self.phase = Phase::Starting;
                    return Action::Start;
                } else if phase == Phase::Starting {
                    self.phase = Phase::Waiting;
                    return Action::Wait;
                } else if phase == Phase::Waiting {
                    self.phase = Phase::Inspecting;
                    return Action::Inspect;
                } else if phase == Phase::Removing {
                    self.phase = Phase::Finished;
                    return Action::Return;
                }
            },
            Event::Failed => {
                if phase == Phase::CollectingLogs {
                    self.phase = Phase::Removing;
                    self.lines = Vec::new();
                    proof {
                        assert(texts(self.lines@) =~= Seq::<Seq<char>>::empty());
                    }
                    return Action::Remove;
                }
            },
            Event::Inspected(inspection) => {
                if phase == Phase::Inspecting {
                    self.exit_code =
                    match inspection.exit_code {
                        Some(code) => code,
                        None => 0,
                    };
                    self.lines = Vec::new();
                    proof {
                        assert(texts(self.lines@) =~= Seq::<Seq<char>>::empty());
                    }
                    let skip = match inspection.status {
                        Some(ContainerStatus::Dead) => true,
                        Some(ContainerStatus::Removing) => true,
                        _ => false,
                    };
                    if skip {
                        self.phase = Phase::Removing;
                        return Action::Remove;
                    } else {
                        self.phase = Phase::CollectingLogs;
                        return Action::FetchLogs;
                    }
                }
            },
            Event::Logs(lines) => {
                if phase == Phase::CollectingLogs {
                    self.phase = Phase::Removing;
                    self.lines = lines;
                    return Action::Remove;
                }
            },
        }
        if phase == Phase::Starting || phase == Phase::Waiting || phase == Phase::Inspecting || phase
            == Phase::CollectingLogs {
            self.phase = Phase::Discarding;
            Action::Remove
        } else {
            self.phase = Phase::Failed;
            Action::Fail
        }
    }
}

/// A run returns only from the state in which the container is being
/// removed, and only when the removal is done. Whatever the inspection
/// reports, and whether the output was fetched or not, the next action on
/// the container removes it. While the container stands, no event ends the
/// run: a failure has the container removed first.
pub proof fn removal_precedes_return(s: RunnerView, e: EventView)
    ensures
        transition(s, e).1 == Action::Return ==> s.phase == Phase::Removing && e is Done,
        transition(s, e).0.phase == Phase::Finished ==> transition(s, e).1 == Action::Return,
        transition(s, e).0.phase == Phase::Removing ==> transition(s, e).1 == Action::Remove,
        transition(s, e).0.phase == Phase::Discarding ==> transition(s, e).1 == Action::Remove,
        s.phase == Phase::Inspecting && e is Inspected ==> transition(s, e).1 == Action::Remove
            || (transition(s, e).1 == Action::FetchLogs && transition(s, e).0.phase
            == Phase::CollectingLogs),
        s.phase == Phase::CollectingLogs && (e is Logs || e is Failed) ==> transition(s, e).1
            == Action::Remove,
        container_stands(s.phase) ==> transition(s, e).1 != Action::Fail && transition(s, e).1
            != Action::Return && container_created(transition(s, e).0.phase),
        container_stands(s.phase) && e is Failed ==> transition(s, e).1 == Action::Remove,
        transition(s, e).1 == Action::Start ==> transition(s, e).0.phase == Phase::Starting,
{
}

proof fn return_follows_remove_from(s: RunnerView, events: Seq<EventView>, i: int)
    requires
        0 <= i < events.len(),
        actions_of(s, events).len() == events.len() ==> actions_of(s, events)[i] == Action::Return,
    ensures
        actions_of(s, events).len() == events.len(),
        (i == 0 && s.phase == Phase::Removing) || (i > 0 && actions_of(s, events)[i - 1]
            == Action::Remove),
    decreases events.len(),
{
    actions_len(s, events);
    let (next, action) = transition(s, events[0]);
    let rest = events.drop_first();
    actions_len(next, rest);
    if i > 0 {
        assert(actions_of(s, events)[i] == actions_of(next, rest)[i - 1]);
        return_follows_remove_from(next, rest, i - 1);
        if i > 1 {
            assert(actions_of(s, events)[i - 1] == actions_of(next, rest)[i - 2]);
        }
    }
}

proof fn actions_len(s: RunnerView, events: Seq<EventView>)
    ensures
        actions_of(s, events).len() == events.len(),
    decreases events.len(),
{
    if events.len() > 0 {
        actions_len(transition(s, events[0]).0, events.drop_first());
    }
}

/// On every sequence of events, a run that begins in the initial state
/// returns a result only directly after it asked for the container's
/// removal.
pub proof fn helper_is_removed_before_return(events: Seq<EventView>, i: int)
    requires
        0 <= i < events.len(),
        actions_of(initial(), events)[i] == Action::Return,
    ensures
        actions_of(initial(), events).len() == events.len(),
        i > 0,
        actions_of(initial(), events)[i - 1] == Action::Remove,
{
    return_follows_remove_from(initial(), events, i);
}

/// Whether an action ends a run.
pub open spec fn ends_run(action: Action) -> bool {
    action == Action::Return || action == Action::Fail
}

proof fn end_follows_remove_from(s: RunnerView, events: Seq<EventView>, i: int)
    requires
        0 <= i < events.len(),
        ends_run(actions_of(s, events)[i]),
        forall|j: int| 0 <= j < i ==> !ends_run(#[trigger] actions_of(s, events)[j]),
        container_created(s.phase) || exists|j: int|
            0 <= j < i && #[trigger] actions_of(s, events)[j] == Action::Start,
    ensures
        (i == 0 && (s.phase == Phase::Removing || s.phase == Phase::Discarding)) || (i > 0
            && actions_of(s, events)[i - 1] == Action::Remove),
    decreases events.len(),
{
    actions_len(s, events);
    let (next, action) = transition(s, events[0]);
    let rest = events.drop_first();
    let all = actions_of(s, events);
    let tail = actions_of(next, rest);
    actions_len(next, rest);
    assert(all[0] == action);
    if i > 0 {
        assert(!ends_run(all[0]));
        assert forall|j: int| 0 <= j < i - 1 implies !ends_run(#[trigger] tail[j]) by {
            assert(tail[j] == all[j + 1]);
        }
        assert(tail[i - 1] == all[i]);
        if !container_created(s.phase) {
            let j = choose|j: int| 0 <= j < i && #[trigger] all[j] == Action::Start;
            if j > 0 {
                assert(tail[j - 1] == all[j]);
            }
        }
        end_follows_remove_from(next, rest, i - 1);
        if i > 1 {
            assert(all[i - 1] == tail[i - 2]);
        }
    }
}

/// On every sequence of events, once the container was created the run
/// ends, with a result or with a failure, only directly after it asked for
/// the container's removal. The creation has succeeded where the run went
/// on to start the container.
pub proof fn helper_is_removed_before_the_run_ends(events: Seq<EventView>, i: int)
    requires
        0 <= i < events.len(),
        ends_run(actions_of(initial(), events)[i]),
        forall|j: int| 0 <= j < i ==> !ends_run(#[trigger] actions_of(initial(), events)[j]),
        exists|j: int| 0 <= j < i && #[trigger] actions_of(initial(), events)[j] == Action::Start,
    ensures
        i > 0,
        actions_of(initial(), events)[i - 1] == Action::Remove,
{
    end_follows_remove_from(initial(), events, i);
}

/// Reads the exit code of a helper: zero is success, and any other code is
/// the error.
pub fn handle_container_output(exit_code: i64) -> (outcome: Result<(), Error>)
    ensures
        exit_code == 0 <==> outcome is Ok,
        exit_code != 0 ==> outcome == Err::<(), Error>(Error::NonZeroExit(exit_code)),
{
    if exit_code == 0 {
        Ok(())
    } else {
        Err(Error::NonZeroExit(exit_code))
    }
}

/// How loudly something is logged.
#[derive(Clone, Copy, Debug, PartialEq, Eq, Structural)]
pub enum LogLevel {
    Error,
    Warn,
    Info,
    Debug,
    Trace,
}

/// The levels up to which is logged at a verbosity: first for everything,
/// then for this tool's own messages.
pub fn log_levels(verbosity: u64) -> (levels: (LogLevel, LogLevel))
    ensures
        levels == (if verbosity == 0 {
            (LogLevel::Warn, LogLevel::Info)
        } else if verbosity == 1 {
            (LogLevel::Warn, LogLevel::Debug)
        } else if verbosity == 2 {
            (LogLevel::Info, LogLevel::Trace)
        } else {
            (LogLevel::Debug, LogLevel::Trace)
        }),
{
    if verbosity == 0 {
        (LogLevel::Warn, LogLevel::Info)
    } else if verbosity == 1 {
        (LogLevel::Warn, LogLevel::Debug)
    } else if verbosity == 2 {
        (LogLevel::Info, LogLevel::Trace)
    } else {
        (LogLevel::Debug, LogLevel::Trace)
    }
}

/// The level at which the output of a helper is logged: as errors where the
/// helper failed.
pub fn output_level(exit_code: i64) -> (level: LogLevel)
    ensures
        level == (if exit_code == 0 {
            LogLevel::Debug
        } else {
            LogLevel::Error
        }),
{
    if exit_code == 0 {
        LogLevel::Debug
    } else {
        LogLevel::Error
    }
}

/// One line of a helper's output as it is logged.
pub open spec fn log_line(prefix: Seq<char>, line: Seq<char>) -> Seq<char> {
    "["@ + prefix + "] "@ + trimmed(line)
}

/// The lines of a helper's output as they are logged: each trimmed, behind
/// the prefix in square brackets.
pub fn output_lines(prefix: &str, logs: &Vec<String>) -> (lines: Vec<String>)
    ensures
        texts(lines@) == Seq::new(logs@.len(), |i: int| log_line(prefix@, logs@[i]@)),
{
    let mut lines: Vec<String> = Vec::new();
    let mut i: usize = 0;
    while i < logs.len()
        invariant
            i <= logs@.len(),
            lines@.len() == i,
            forall|k: int| 0 <= k < i ==> (#[trigger] lines@[k])@ == log_line(prefix@, logs@[k]@),
        decreases logs@.len() - i,
    {
        let kept = trim(logs[i].as_str());
        let line = String::from_str("[").concat(prefix).concat("] ").concat(kept.as_str());
        lines.push(line);
        i += 1;
    }
    proof {
        assert(texts(lines@) =~= Seq::new(logs@.len(), |k: int| log_line(prefix@, logs@[k]@)));
    }
    lines
}

/// The image of this tool with the given tag.
pub open spec fn image_name(tag: Seq<char>) -> Seq<char> {
    "dockyard:"@ + tag
}

/// The image of this tool with the given tag: a released version, or the
/// revision of a checkout.
pub fn image_for(tag: &str) -> (image: String)
    ensures
        image@ == image_name(tag@),
{
    String::from_str("dockyard:").concat(tag)
}

/// Where the first line of a text ends: at its first newline, or at its end.
pub open spec fn line_end(s: Seq<char>) -> int
    decreases s.len(),
{
    if s.len() == 0 || s[0] == '\n' {
        0
    } else {
        1 + line_end(s.drop_first())
    }
}

/// The revision and the root of a checkout, as `git rev-parse HEAD
/// --show-toplevel` prints them: the first and the second line of its
/// output. Output of a single line names no checkout.
pub open spec fn checkout(output: Seq<char>) -> Option<(Seq<char>, Seq<char>)> {
    let first = line_end(output);
    if first >= output.len() {
        None
    } else {
        let rest = output.subrange(first + 1, output.len() as int);
        Some((output.subrange(0, first), rest.subrange(0, line_end(rest))))
    }
}

/// The first line of a text ends within the text, at a newline unless the
/// text ends there, and holds no newline itself.
pub proof fn first_line_holds_no_newline(s: Seq<char>)
    ensures
        0 <= line_end(s) <= s.len(),
        line_end(s) < s.len() ==> s[line_end(s)] == '\n',
        forall|k: int| 0 <= k < line_end(s) ==> s[k] != '\n',
    decreases s.len(),
{
    if s.len() > 0 && s[0] != '\n' {
        first_line_holds_no_newline(s.drop_first());
        assert forall|k: int| 0 <= k < line_end(s) implies s[k] != '\n' by {
            if k > 0 {
                assert(s[k] == s.drop_first()[k - 1]);
            }
        }
    }
}

proof fn line_end_is_first_newline(s: Seq<char>, i: int)
    requires
        0 <= i <= s.len(),
        forall|k: int| 0 <= k < i ==> s[k] != '\n',
        i < s.len() ==> s[i] == '\n',
    ensures
        line_end(s) == i,
    decreases i,
{
    if i > 0 {
        line_end_is_first_newline(s.drop_first(), i - 1);
    }
}

fn find_line_end(chars: &Vec<char>, from: usize) -> (end: usize)
    requires
        from <= chars@.len(),
    ensures
        from <= end <= chars@.len(),
        end - from == line_end(chars@.subrange(from as int, chars@.len() as int)),
{
    let mut i: usize = from;
    while i < chars.len() && chars[i] != '\n'
        invariant
            from <= i <= chars@.len(),
            forall|k: int| from <= k < i ==> chars@[k] != '\n',
        decreases chars@.len() - i,
    {
        i += 1;
    }
    proof {
        line_end_is_first_newline(chars@.subrange(from as int, chars@.len() as int), i - from);
    }
    i
}

fn slice_text(chars: &Vec<char>, from: usize, to: usize) -> (text: String)
    requires
        from <= to <= chars@.len(),
    ensures
        text@ == chars@.subrange(from as int, to as int),
{
    let mut kept: Vec<char> = Vec::new();
    let mut i: usize = from;
    while i < to
        invariant
            from <= i <= to <= chars@.len(),
            kept@ == chars@.subrange(from as int, i as int),
        decreases to - i,
    {
        kept.push(chars[i]);
        proof {
            assert(kept@ =~= chars@.subrange(from as int, i + 1));
        }
        i += 1;
    }
    string_of(&kept)
}

/// A checkout of this tool's sources.
#[derive(Clone, Debug, PartialEq, Eq)]
pub struct Checkout {
    pub revision: String,
    pub root: String,
}

/// Reads the revision and the root of a checkout from what `git rev-parse
/// HEAD --show-toplevel` printed.
pub fn checkout_of(output: &str) -> (found: Option<Checkout>)
    ensures
        match found {
            Some(c) => checkout(output@) == Some((c.revision@, c.root@)),
            None => checkout(output@) is None,
        },
{
    let chars = crate::text::chars_of(output);
    let first = find_line_end(&chars, 0);
    proof {
        assert(chars@.subrange(0, chars@.len() as int) =~= chars@);
    }
    if first >= chars.len() {
        return None;
    }
    let second = find_line_end(&chars, first + 1);
    let revision = slice_text(&chars, 0, first);
    let root = slice_text(&chars, first + 1, second);
    proof {
        let rest = output@.subrange(first + 1, output@.len() as int);
        assert(rest.subrange(0, line_end(rest)) =~= chars@.subrange(first + 1, second as int));
    }
    Some(Checkout { revision, root })
}

} // verus!
