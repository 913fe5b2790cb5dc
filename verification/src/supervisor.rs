//! The supervisor of the one external process that may run at a time.
//!
//! The supervisor decides; it starts nothing and waits for nothing itself.
//! Its caller starts the process that [`CommandManager::start_command`]
//! hands out, forwards the two output streams, waits for the exit, kills
//! the process when [`CommandManager::stop_command`] has accepted a stop,
//! and reports each of these back. The slot is taken from the moment a
//! start is accepted until the process has ended and both streams are
//! closed; only then are the closing events handed out.

use vstd::prelude::*;
use vstd::string::StringExecFns;

use crate::events::UiEvent;
use crate::events::UiEventView;
use crate::launch::Launch;
use crate::launch::launch_env;
use crate::launch::launch_flags;
use crate::platform::Platform;
use crate::text::join;
use crate::text::join_strings;

verus! {

/// One of the two output streams of the process.
#[derive(Clone, Copy, Debug, PartialEq, Eq, Structural)]
pub enum Stream {
    Stdout,
    Stderr,
}

/// How the attempt to start the process went.
#[derive(Debug)]
pub enum SpawnOutcome {
    /// The system refused; its message is kept.
    Failed(String),
    /// The process came up without a process id.
    NoProcessId,
    /// The standard output of the process could not be had.
    NoStdout,
    /// The standard error of the process could not be had.
    NoStderr,
    /// The process runs under this id.
    Started(u32),
}

/// How the process ended.
#[derive(Debug)]
pub enum ExitReport {
    /// It ended by itself.
    Exited,
    /// Waiting for it failed; the system's message is kept.
    WaitFailed(String),
    /// It was killed because a stop was asked for.
    Killed,
}

/// Why the supervisor turns a call down.
#[derive(Debug)]
pub enum SupervisorError {
    AlreadyRunning,
    NotRunning,
    SpawnFailed(String),
    NoProcessId,
    NoStdout,
    NoStderr,
    SignalFailed(String),
}

/// A process under supervision.
#[derive(Debug)]
pub struct Run {
    pub pid: u32,
    /// Whether the forwarding of standard output still goes on.
    pub stdout_open: bool,
    /// Whether the forwarding of standard error still goes on.
    pub stderr_open: bool,
    /// How the process ended, once it has.
    pub ended: Option<ExitReport>,
    /// Whether a stop was accepted.
    pub stop_requested: bool,
}

/// The slot for the one process.
#[derive(Debug)]
pub enum Slot {
    /// Nothing runs.
    Idle,
    /// A start was accepted and its outcome is not known yet.
    Starting,
    /// A process runs, or its output is still being forwarded.
    Running(Run),
}

/// What can happen to the supervisor.
pub enum Input {
    /// A start is asked for.
    Start,
    /// The attempt to start the process is over.
    Launched(SpawnOutcome),
    /// A stop is asked for.
    Stop,
    /// The stop that was accepted could not be signalled.
    StopFailed,
    /// The process has ended.
    Exited(ExitReport),
    /// The forwarding of a stream has come to its end.
    Closed(Stream),
}

/// A run is over when the process has ended and both streams are closed.
pub open spec fn run_over(run: Run) -> bool {
    run.ended is Some && !run.stdout_open && !run.stderr_open
}

/// The slot that holds `run`: free as soon as the run is over.
pub open spec fn settle(run: Run) -> Slot {
    if run_over(run) {
        Slot::Idle
    } else {
        Slot::Running(run)
    }
}

/// `run` with the given stream closed.
pub open spec fn close_stream(run: Run, stream: Stream) -> Run {
    match stream {
        Stream::Stdout => Run { stdout_open: false, ..run },
        Stream::Stderr => Run { stderr_open: false, ..run },
    }
}

/// Whether the given stream of `run` is still forwarded.
pub open spec fn stream_open(run: Run, stream: Stream) -> bool {
    match stream {
        Stream::Stdout => run.stdout_open,
        Stream::Stderr => run.stderr_open,
    }
}

/// The slot after `input`. An input that does not fit the slot changes
/// nothing.
pub open spec fn next(slot: Slot, input: Input) -> Slot {
    match input {
        Input::Start => match slot {
            Slot::Idle => Slot::Starting,
            _ => slot,
        },
        Input::Launched(outcome) => match slot {
            Slot::Starting => match outcome {
                SpawnOutcome::Started(pid) => Slot::Running(
                    Run {
                        pid,
                        stdout_open: true,
                        stderr_open: true,
                        ended: None,
                        stop_requested: false,
                    },
                ),
                _ => Slot::Idle,
            },
            _ => slot,
        },
        Input::Stop => match slot {
            Slot::Running(run) => Slot::Running(Run { stop_requested: true, ..run }),
            _ => slot,
        },
        Input::StopFailed => match slot {
            Slot::Running(run) => Slot::Running(Run { stop_requested: false, ..run }),
            _ => slot,
        },
        Input::Exited(report) => match slot {
            Slot::Running(run) => if run.ended is None {
                settle(Run { ended: Some(report), ..run })
            } else {
                slot
            },
            _ => slot,
        },
        Input::Closed(stream) => match slot {
            Slot::Running(run) => if stream_open(run, stream) {
                settle(close_stream(run, stream))
            } else {
                slot
            },
            _ => slot,
        },
    }
}

/// The notice that a stop was carried out.
pub open spec fn stop_notice() -> Seq<char> {
    "プロセスを停止しました\n"@
}

/// The notice that the process is over.
pub open spec fn exit_notice() -> Seq<char> {
    "プロセス終了"@
}

/// The notice that waiting for the process failed for `reason`.
pub open spec fn wait_failure_notice(reason: Seq<char>) -> Seq<char> {
    "プロセス終了エラー: "@ + reason
}

/// The events that close a run: the stop notice if a stop was accepted,
/// an empty line after a process that ended by itself, and last of all the
/// one `process-exit`.
pub open spec fn closing_events(stop_requested: bool, report: ExitReport) -> Seq<UiEventView> {
    let notice = if stop_requested {
        seq![UiEventView::ProcessOutput(stop_notice())]
    } else {
        Seq::empty()
    };
    match report {
        ExitReport::Exited => notice + seq![
            UiEventView::ProcessOutput("\n"@),
            UiEventView::ProcessExit(exit_notice()),
        ],
        ExitReport::WaitFailed(reason) => notice + seq![
            UiEventView::ProcessExit(wait_failure_notice(reason@)),
        ],
        ExitReport::Killed => notice + seq![UiEventView::ProcessExit(exit_notice())],
    }
}

/// The events that the supervisor hands out on `input`: the closing
/// events, when `input` is what the run was still waiting for, and else
/// none.
pub open spec fn emitted(slot: Slot, input: Input) -> Seq<UiEventView> {
    match (slot, input) {
        (Slot::Running(run), Input::Exited(report)) => if run.ended is None && !run.stdout_open
            && !run.stderr_open {
            closing_events(run.stop_requested, report)
        } else {
            Seq::empty()
        },
        (Slot::Running(run), Input::Closed(stream)) => if stream_open(run, stream) && run_over(
            close_stream(run, stream),
        ) {
            closing_events(run.stop_requested, run.ended->Some_0)
        } else {
            Seq::empty()
        },
        _ => Seq::empty(),
    }
}

/// The line that announces a launch: the working directory, the name of
/// the tool and its arguments.
pub open spec fn launch_banner(cwd: Seq<char>, args: Seq<Seq<char>>) -> Seq<char> {
    cwd + ">yt-dlp "@ + join(args, " "@) + "\n"@
}

/// What a successful start gives.
#[derive(Debug)]
pub struct Started {
    pub pid: u32,
    /// The announcement to send to the user interface.
    pub banner: UiEvent,
}

impl SupervisorError {
    /// The text of the error for the user.
    pub open spec fn text(self) -> Seq<char> {
        match self {
            SupervisorError::AlreadyRunning => "プロセスは既に実行中です"@,
            SupervisorError::NotRunning => "Command is not running."@,
            SupervisorError::SpawnFailed(reason) => "コマンドの実行に失敗しました: "@ + reason@,
            SupervisorError::NoProcessId => "プロセスIDの取得に失敗しました"@,
            SupervisorError::NoStdout => "標準出力の取得に失敗しました"@,
            SupervisorError::NoStderr => "標準エラーの取得に失敗しました"@,
            SupervisorError::SignalFailed(reason) => "Failed to send stop signal: "@ + reason@,
        }
    }

    /// The text of the error for the user.
    pub fn message(&self) -> (text: String)
        ensures
            text@ == self.text(),
    {
        match self {
            SupervisorError::AlreadyRunning => String::from_str("プロセスは既に実行中です"),
            SupervisorError::NotRunning => String::from_str("Command is not running."),
            SupervisorError::SpawnFailed(reason) => {
                String::from_str("コマンドの実行に失敗しました: ").concat(reason.as_str())
            },
            SupervisorError::NoProcessId => String::from_str("プロセスIDの取得に失敗しました"),
            SupervisorError::NoStdout => String::from_str("標準出力の取得に失敗しました"),
            SupervisorError::NoStderr => String::from_str("標準エラーの取得に失敗しました"),
            SupervisorError::SignalFailed(reason) => {
                String::from_str("Failed to send stop signal: ").concat(reason.as_str())
            },
        }
    }
}

fn closing(stop_requested: bool, report: &ExitReport) -> (events: Vec<UiEvent>)
    ensures
        events.deep_view() == closing_events(stop_requested, *report),
{
    let mut events: Vec<UiEvent> = Vec::new();
    if stop_requested {
        events.push(UiEvent::ProcessOutput(String::from_str("プロセスを停止しました\n")));
    }
    match report {
        ExitReport::Exited => {
            events.push(UiEvent::ProcessOutput(String::from_str("\n")));
            events.push(UiEvent::ProcessExit(String::from_str("プロセス終了")));
        },
        ExitReport::WaitFailed(reason) => {
            let text = String::from_str("プロセス終了エラー: ").concat(reason.as_str());
            events.push(UiEvent::ProcessExit(text));
        },
        ExitReport::Killed => {
            events.push(UiEvent::ProcessExit(String::from_str("プロセス終了")));
        },
    }
    assert(events.deep_view() =~= closing_events(stop_requested, *report));
    events
}

fn no_events() -> (events: Vec<UiEvent>)
    ensures
        events.deep_view() == Seq::<UiEventView>::empty(),
{
    let events: Vec<UiEvent> = Vec::new();
    assert(events.deep_view() =~= Seq::<UiEventView>::empty());
    events
}

/// The supervisor.
#[derive(Debug)]
pub struct CommandManager {
    slot: Slot,
}

impl CommandManager {
    /// The slot as it stands.
    pub closed spec fn slot(&self) -> Slot {
        self.slot
    }

    /// A supervisor with nothing running.
    pub fn new() -> (manager: CommandManager)
        ensures
            manager.slot() is Idle,
    {
        CommandManager { slot: Slot::Idle }
    }

    /// Whether the slot is free.
    pub fn is_idle(&self) -> (idle: bool)
        ensures
            idle == (self.slot() is Idle),
    {
        match &self.slot {
            Slot::Idle => true,
            _ => false,
        }
    }

    /// The id of the process under supervision, if there is one.
    pub fn pid(&self) -> (pid: Option<u32>)
        ensures
            pid == match self.slot() {
                Slot::Running(run) => Some(run.pid),
                _ => None::<u32>,
            },
    {
        match &self.slot {
            Slot::Running(run) => Some(run.pid),
            _ => None,
        }
    }

    /// Whether a stop was accepted that is not carried out yet.
    pub fn is_stopping(&self) -> (stopping: bool)
        ensures
            stopping == match self.slot() {
                Slot::Running(run) => run.stop_requested,
                _ => false,
            },
    {
        match &self.slot {
            Slot::Running(run) => run.stop_requested,
            _ => false,
        }
    }

    /// Asks to run the tool at `yt_dlp_path` with `args`.
    ///
    /// With the slot free the start is accepted: the slot is taken and the
    /// launch to carry out comes back. With the slot taken the answer is
    /// `AlreadyRunning`, nothing changes and there is nothing to launch.
    pub fn start_command(&mut self, args: Vec<String>, yt_dlp_path: &str, platform: Platform) -> (r:
        Result<Launch, SupervisorError>)
        ensures
            final(self).slot() == next(old(self).slot(), Input::Start),
            r is Ok <==> grants_launch(old(self).slot(), Input::Start),
            old(self).slot() is Idle ==> r is Ok && r->Ok_0.program@ == yt_dlp_path@
                && r->Ok_0.args == args && r->Ok_0.env.deep_view() == launch_env(platform)
                && r->Ok_0.creation_flags == launch_flags(platform),
            !(old(self).slot() is Idle) ==> r is Err && r->Err_0 is AlreadyRunning && final(self).slot() == old(self).slot(),
    {
        match &self.slot {
            Slot::Idle => {},
            _ => {
                return Err(SupervisorError::AlreadyRunning);
            },
        }
        self.slot = Slot::Starting;
        Ok(Launch::new(String::from_str(yt_dlp_path), args, platform))
    }

    /// Reports how the launch went, for the process that was started in
    /// the directory `cwd` with `args`.
    ///
    /// A process that came up is now under supervision, and its id comes
    /// back with the announcement for the user interface. After a failure
    /// the slot is free again. Without a start that waits for its outcome
    /// nothing changes.
    pub fn launched(&mut self, outcome: SpawnOutcome, cwd: &str, args: &Vec<String>) -> (r: Result<
        Started,
        SupervisorError,
    >)
        ensures
            final(self).slot() == next(old(self).slot(), Input::Launched(outcome)),
            match old(self).slot() {
                Slot::Idle => r is Err && r->Err_0 is NotRunning,
                Slot::Running(_) => r is Err && r->Err_0 is AlreadyRunning,
                Slot::Starting => match outcome {
                    SpawnOutcome::Started(pid) => r is Ok && r->Ok_0.pid == pid && r->Ok_0.banner@
                        == UiEventView::ProcessOutput(launch_banner(cwd@, args.deep_view())),
                    SpawnOutcome::Failed(reason) => r is Err && r->Err_0
                        == SupervisorError::SpawnFailed(reason),
                    SpawnOutcome::NoProcessId => r is Err && r->Err_0 is NoProcessId,
                    SpawnOutcome::NoStdout => r is Err && r->Err_0 is NoStdout,
                    SpawnOutcome::NoStderr => r is Err && r->Err_0 is NoStderr,
                },
            },
    {
        match &self.slot {
            Slot::Idle => {
                return Err(SupervisorError::NotRunning);
            },
            Slot::Running(_) => {
                return Err(SupervisorError::AlreadyRunning);
            },
            Slot::Starting => {},
        }
        match outcome {
            SpawnOutcome::Started(pid) => {
                self.slot = Slot::Running(
                    Run {
                        pid,
                        stdout_open: true,
                        stderr_open: true,
                        ended: None,
                        stop_requested: false,
                    },
                );
                let mut text = String::from_str(cwd);
                text.append(">yt-dlp ");
                let joined = join_strings(args, " ");
                text.append(joined.as_str());
                text.append("\n");
                Ok(Started { pid, banner: UiEvent::ProcessOutput(text) })
            },
            SpawnOutcome::Failed(reason) => {
                self.slot = Slot::Idle;
                Err(SupervisorError::SpawnFailed(reason))
            },
            SpawnOutcome::NoProcessId => {
                self.slot = Slot::Idle;
                Err(SupervisorError::NoProcessId)
            },
            SpawnOutcome::NoStdout => {
                self.slot = Slot::Idle;
                Err(SupervisorError::NoStdout)
            },
            SpawnOutcome::NoStderr => {
                self.slot = Slot::Idle;
                Err(SupervisorError::NoStderr)
            },
        }
    }

    /// Asks to stop the process.
    ///
    /// With a process under supervision the stop is accepted: the caller
    /// signals the cancellation and waits until the slot is free. Without
    /// one the answer is `NotRunning` and nothing changes.
    pub fn stop_command(&mut self) -> (r: Result<(), SupervisorError>)
        ensures
            final(self).slot() == next(old(self).slot(), Input::Stop),
            old(self).slot() is Running ==> r is Ok,
            !(old(self).slot() is Running) ==> r is Err && r->Err_0 is NotRunning && final(self).slot() == old(self).slot(),
    {
        let mut slot = Slot::Idle;
        core::mem::swap(&mut self.slot, &mut slot);
        match slot {
            Slot::Running(run) => {
                self.slot = Slot::Running(Run { stop_requested: true, ..run });
                Ok(())
            },
            other => {
                self.slot = other;
                Err(SupervisorError::NotRunning)
            },
        }
    }

    /// Reports that the cancellation could not be signalled, for `reason`.
    /// The stop counts as not asked for, and the error to answer with
    /// comes back.
    pub fn stop_failed(&mut self, reason: String) -> (e: SupervisorError)
        ensures
            final(self).slot() == next(old(self).slot(), Input::StopFailed),
            e == SupervisorError::SignalFailed(reason),
    {
        let mut slot = Slot::Idle;
        core::mem::swap(&mut self.slot, &mut slot);
        match slot {
            Slot::Running(run) => {
                self.slot = Slot::Running(Run { stop_requested: false, ..run });
            },
            other => {
                self.slot = other;
            },
        }
        SupervisorError::SignalFailed(reason)
    }

    /// Reports that the process has ended. The events to send come back:
    /// the closing events if both streams are closed already, else none.
    pub fn process_exited(&mut self, report: ExitReport) -> (events: Vec<UiEvent>)
        ensures
            final(self).slot() == next(old(self).slot(), Input::Exited(report)),
            events.deep_view() == emitted(old(self).slot(), Input::Exited(report)),
    {
        let mut slot = Slot::Idle;
        core::mem::swap(&mut self.slot, &mut slot);
        match slot {
            Slot::Running(run) => {
                if run.ended.is_none() {
                    if !run.stdout_open && !run.stderr_open {
                        closing(run.stop_requested, &report)
                    } else {
                        self.slot = Slot::Running(Run { ended: Some(report), ..run });
                        no_events()
                    }
                } else {
                    self.slot = Slot::Running(run);
                    no_events()
                }
            },
            other => {
                self.slot = other;
                no_events()
            },
        }
    }

    /// Reports that the forwarding of `stream` has come to its end. The
    /// events to send come back: the closing events if the process has
    /// ended and the other stream is closed already, else none.
    pub fn stream_closed(&mut self, stream: Stream) -> (events: Vec<UiEvent>)
        ensures
            final(self).slot() == next(old(self).slot(), Input::Closed(stream)),
            events.deep_view() == emitted(old(self).slot(), Input::Closed(stream)),
    {
        let mut slot = Slot::Idle;
        core::mem::swap(&mut self.slot, &mut slot);
        match slot {
            Slot::Running(run) => {
                let was_open = match stream {
                    Stream::Stdout => run.stdout_open,
                    Stream::Stderr => run.stderr_open,
                };
                let closed = match stream {
                    Stream::Stdout => Run { stdout_open: false, ..run },
                    Stream::Stderr => Run { stderr_open: false, ..run },
                };
                if was_open && !closed.stdout_open && !closed.stderr_open {
                    match &closed.ended {
                        Some(report) => {
                            return closing(closed.stop_requested, report);
                        },
                        None => {},
                    }
                }
                self.slot = Slot::Running(closed);
                no_events()
            },
            other => {
                self.slot = other;
                no_events()
            },
        }
    }
}

/// The slot after the inputs `inputs`, taken in order from `slot`.
pub open spec fn run(slot: Slot, inputs: Seq<Input>) -> Slot
    decreases inputs.len(),
{
    if inputs.len() == 0 {
        slot
    } else {
        next(run(slot, inputs.drop_last()), inputs.last())
    }
}

/// Whether `input` gets a launch handed out: a start with the slot free.
pub open spec fn grants_launch(slot: Slot, input: Input) -> bool {
    input is Start && slot is Idle
}

/// Whether `input` frees a slot that was taken: by a launch that failed
/// or by the end of a run.
pub open spec fn frees_slot(slot: Slot, input: Input) -> bool {
    !(slot is Idle) && next(slot, input) is Idle
}

/// How many launches are handed out along `inputs`.
pub open spec fn launches(slot: Slot, inputs: Seq<Input>) -> nat
    decreases inputs.len(),
{
    if inputs.len() == 0 {
        0
    } else {
        let before = launches(slot, inputs.drop_last());
        if grants_launch(run(slot, inputs.drop_last()), inputs.last()) {
            before + 1
        } else {
            before
        }
    }
}

/// How many times the slot is freed along `inputs`.
pub open spec fn releases(slot: Slot, inputs: Seq<Input>) -> nat
    decreases inputs.len(),
{
    if inputs.len() == 0 {
        0
    } else {
        let before = releases(slot, inputs.drop_last());
        if frees_slot(run(slot, inputs.drop_last()), inputs.last()) {
            before + 1
        } else {
            before
        }
    }
}

/// A start while the slot is taken is refused whatever else is going on:
/// the slot stays as it is, and so no second process is launched.
pub proof fn law_second_start_is_refused(slot: Slot)
    requires
        !(slot is Idle),
    ensures
        next(slot, Input::Start) == slot,
        !grants_launch(slot, Input::Start),
        emitted(slot, Input::Start) == Seq::<UiEventView>::empty(),
{
}

/// Whatever happens to a supervisor that starts out idle, and in whatever
/// order, at most one launch is in flight: the launches handed out exceed
/// the slots freed by one while the slot is taken, and by none while it
/// is free.
pub proof fn law_one_in_flight(inputs: Seq<Input>)
    ensures
        launches(Slot::Idle, inputs) - releases(Slot::Idle, inputs) == (if run(
            Slot::Idle,
            inputs,
        ) is Idle {
            0int
        } else {
            1int
        }),
    decreases inputs.len(),
{
    if inputs.len() > 0 {
        law_one_in_flight(inputs.drop_last());
    }
}

/// A stop with nothing under supervision changes nothing and hands out
/// nothing.
pub proof fn law_idle_stop_changes_nothing(slot: Slot)
    requires
        !(slot is Running),
    ensures
        next(slot, Input::Stop) == slot,
        emitted(slot, Input::Stop) == Seq::<UiEventView>::empty(),
{
}

/// The closing events are handed out by the one input that ends a run,
/// which leaves the process ended and both streams closed, and by no
/// other. They hold one `process-exit`, and it is the last of them.
pub proof fn law_closing_events_end_the_run(slot: Slot, input: Input)
    ensures
        emitted(slot, input).len() > 0 <==> slot is Running && next(slot, input) is Idle,
        emitted(slot, input).len() > 0 ==> {
            let events = emitted(slot, input);
            &&& events.last() is ProcessExit
            &&& forall|i: int| 0 <= i < events.len() - 1 ==> !(#[trigger] events[i] is ProcessExit)
            &&& match input {
                Input::Exited(report) => run_over(Run { ended: Some(report), ..slot->Running_0 }),
                Input::Closed(stream) => run_over(close_stream(slot->Running_0, stream)),
                _ => false,
            }
        },
{
}

/// How many times closing events are handed out along `inputs`.
pub open spec fn closings(slot: Slot, inputs: Seq<Input>) -> nat
    decreases inputs.len(),
{
    if inputs.len() == 0 {
        0
    } else {
        let before = closings(slot, inputs.drop_last());
        if emitted(run(slot, inputs.drop_last()), inputs.last()).len() > 0 {
            before + 1
        } else {
            before
        }
    }
}

/// A run is closed once at most: whatever happens to a supervisor that
/// starts out idle, closing events are handed out no more often than the
/// slot is freed, and so no more often than launches are handed out.
pub proof fn law_one_closing_for_each_run(inputs: Seq<Input>)
    ensures
        closings(Slot::Idle, inputs) <= releases(Slot::Idle, inputs) <= launches(Slot::Idle, inputs),
    decreases inputs.len(),
{
    law_one_in_flight(inputs);
    if inputs.len() > 0 {
        law_one_closing_for_each_run(inputs.drop_last());
        law_closing_events_end_the_run(run(Slot::Idle, inputs.drop_last()), inputs.last());
    }
}

} // verus!
