//! The life of one run of the control tool, told by the events of its
//! process, and the log that its output is gathered in.

use crate::decimal::{decimal, i32_to_decimal};
use crate::text::names_view;
use vstd::prelude::*;
use vstd::string::StringExecFns;

verus! {

/// What a failed start is logged with, before the reason.
pub const SPAWN_FAILED_PREFIX: &'static str = "Failed to start command: ";

/// What the end of a run is logged with, before the exit status.
pub const EXITED_PREFIX: &'static str = "Command exited with status: ";

/// Where a line of the log comes from.
#[derive(Clone, Copy, Debug, PartialEq, Eq, Structural)]
pub enum LogOrigin {
    /// A line the process wrote to its standard output.
    Stdout,
    /// A line the process wrote to its standard error.
    Stderr,
    /// A line the dashboard wrote about the process.
    System,
}

/// One line of the log.
#[derive(Debug, PartialEq, Eq)]
pub struct LogEntry {
    pub origin: LogOrigin,
    pub text: String,
}

/// Mathematical model of a [`LogEntry`].
pub struct LogLine {
    pub origin: LogOrigin,
    pub text: Seq<char>,
}

impl View for LogEntry {
    type V = LogLine;

    open spec fn view(&self) -> LogLine {
        LogLine { origin: self.origin, text: self.text@ }
    }
}

/// What a line of standard output is shown with, before its text.
pub const STDOUT_PREFIX: &'static str = "STDOUT: ";

/// What a line of standard error is shown with, before its text.
pub const STDERR_PREFIX: &'static str = "STDERR: ";

impl LogLine {
    /// The line as the log panel shows it: output of the process behind the
    /// name of the output it came from, a line of the dashboard as it is.
    pub open spec fn shown(self) -> Seq<char> {
        match self.origin {
            LogOrigin::Stdout => STDOUT_PREFIX@ + self.text,
            LogOrigin::Stderr => STDERR_PREFIX@ + self.text,
            LogOrigin::System => self.text,
        }
    }
}

impl LogEntry {
    /// The line as the log panel shows it.
    pub fn shown(&self) -> (text: String)
        ensures
            text@ == self@.shown(),
    {
        match self.origin {
            LogOrigin::Stdout => {
                let mut text: String = STDOUT_PREFIX.to_owned();
                text.append(self.text.as_str());
                text
            },
            LogOrigin::Stderr => {
                let mut text: String = STDERR_PREFIX.to_owned();
                text.append(self.text.as_str());
                text
            },
            LogOrigin::System => self.text.clone(),
        }
    }
}

/// The lines of a log, each as its model.
pub open spec fn log_view(log: Seq<LogEntry>) -> Seq<LogLine> {
    log.map_values(|entry: LogEntry| entry@)
}

/// How far a run has come.
#[derive(Debug, PartialEq, Eq)]
pub enum CommandStatus {
    /// Asked for, not yet started.
    Pending,
    /// The process runs.
    Running,
    /// The process ended with this exit status.
    Completed(i32),
    /// The process could not be started, for this reason.
    Failed(String),
}

/// Mathematical model of a [`CommandStatus`].
pub enum StatusModel {
    Pending,
    Running,
    Completed(i32),
    Failed(Seq<char>),
}

impl View for CommandStatus {
    type V = StatusModel;

    open spec fn view(&self) -> StatusModel {
        match self {
            CommandStatus::Pending => StatusModel::Pending,
            CommandStatus::Running => StatusModel::Running,
            CommandStatus::Completed(code) => StatusModel::Completed(*code),
            CommandStatus::Failed(reason) => StatusModel::Failed(reason@),
        }
    }
}

/// What the process of a run lets the dashboard know.
#[derive(Debug, PartialEq, Eq)]
pub enum CommandEvent {
    /// The process was started.
    Spawned,
    /// The process could not be started, for this reason.
    SpawnFailed(String),
    /// The process wrote this line to its standard output.
    Stdout(String),
    /// The process wrote this line to its standard error.
    Stderr(String),
    /// The process ended with this exit status.
    Exited(i32),
}

/// Mathematical model of a [`CommandEvent`].
pub enum EventModel {
    Spawned,
    SpawnFailed(Seq<char>),
    Stdout(Seq<char>),
    Stderr(Seq<char>),
    Exited(i32),
}

impl View for CommandEvent {
    type V = EventModel;

    open spec fn view(&self) -> EventModel {
        match self {
            CommandEvent::Spawned => EventModel::Spawned,
            CommandEvent::SpawnFailed(reason) => EventModel::SpawnFailed(reason@),
            CommandEvent::Stdout(line) => EventModel::Stdout(line@),
            CommandEvent::Stderr(line) => EventModel::Stderr(line@),
            CommandEvent::Exited(code) => EventModel::Exited(*code),
        }
    }
}

impl StatusModel {
    /// The run is over: it ended or never started.
    pub open spec fn is_final(self) -> bool {
        self is Completed || self is Failed
    }

    /// The status after `event`. A pending run starts or fails to start, a
    /// running one ends; no other event changes the status.
    pub open spec fn after(self, event: EventModel) -> StatusModel {
        match (self, event) {
            (StatusModel::Pending, EventModel::Spawned) => StatusModel::Running,
            (StatusModel::Pending, EventModel::SpawnFailed(reason)) => StatusModel::Failed(reason),
            (StatusModel::Running, EventModel::Exited(code)) => StatusModel::Completed(code),
            _ => self,
        }
    }

    /// The lines that `event` adds to the log: one for a failed start, one
    /// for each line a running process writes, one for its end, none
    /// otherwise.
    pub open spec fn logged(self, event: EventModel) -> Seq<LogLine> {
        match (self, event) {
            (StatusModel::Pending, EventModel::SpawnFailed(reason)) => seq![
                LogLine { origin: LogOrigin::System, text: SPAWN_FAILED_PREFIX@ + reason },
            ],
            (StatusModel::Running, EventModel::Stdout(line)) => seq![
                LogLine { origin: LogOrigin::Stdout, text: line },
            ],
            (StatusModel::Running, EventModel::Stderr(line)) => seq![
                LogLine { origin: LogOrigin::Stderr, text: line },
            ],
            (StatusModel::Running, EventModel::Exited(code)) => seq![
                LogLine { origin: LogOrigin::System, text: EXITED_PREFIX@ + decimal(code as int) },
            ],
            _ => seq![],
        }
    }

    /// The status after each of `events` in turn.
    pub open spec fn after_all(self, events: Seq<EventModel>) -> StatusModel
        decreases events.len(),
    {
        if events.len() == 0 {
            self
        } else {
            self.after_all(events.drop_last()).after(events.last())
        }
    }

    /// The lines that `events` add to the log, taken in turn.
    pub open spec fn logged_all(self, events: Seq<EventModel>) -> Seq<LogLine>
        decreases events.len(),
    {
        if events.len() == 0 {
            seq![]
        } else {
            self.logged_all(events.drop_last()) + self.after_all(events.drop_last()).logged(
                events.last(),
            )
        }
    }
}

/// The texts of the lines of `lines` that come from `origin`, in their order.
pub open spec fn stream(lines: Seq<LogLine>, origin: LogOrigin) -> Seq<Seq<char>>
    decreases lines.len(),
{
    if lines.len() == 0 {
        seq![]
    } else if lines.last().origin == origin {
        stream(lines.drop_last(), origin).push(lines.last().text)
    } else {
        stream(lines.drop_last(), origin)
    }
}

/// The lines that `events` report of the output `origin`, in their order.
pub open spec fn written(events: Seq<EventModel>, origin: LogOrigin) -> Seq<Seq<char>>
    decreases events.len(),
{
    if events.len() == 0 {
        seq![]
    } else {
        let before = written(events.drop_last(), origin);
        match events.last() {
            EventModel::Stdout(line) => if origin == LogOrigin::Stdout {
                before.push(line)
            } else {
                before
            },
            EventModel::Stderr(line) => if origin == LogOrigin::Stderr {
                before.push(line)
            } else {
                before
            },
            _ => before,
        }
    }
}

/// None of `events` starts or ends the process.
pub open spec fn only_output(events: Seq<EventModel>) -> bool {
    forall|i: int| 0 <= i < events.len() ==> events[i] is Stdout || events[i] is Stderr
}

/// The lines of one origin in a log that was added to are those that stood
/// there followed by those of the addition.
pub proof fn lemma_stream_add(lines: Seq<LogLine>, more: Seq<LogLine>, origin: LogOrigin)
    ensures
        stream(lines + more, origin) == stream(lines, origin) + stream(more, origin),
    decreases more.len(),
{
    if more.len() > 0 {
        lemma_stream_add(lines, more.drop_last(), origin);
        assert((lines + more).drop_last() =~= lines + more.drop_last());
    }
}

/// The lines of one output in what a single event adds to the log.
proof fn lemma_stream_of_logged(status: StatusModel, event: EventModel, origin: LogOrigin)
    requires
        origin != LogOrigin::System,
    ensures
        stream(status.logged(event), origin) == match (status, event) {
            (StatusModel::Running, EventModel::Stdout(line)) => if origin == LogOrigin::Stdout {
                seq![line]
            } else {
                seq![]
            },
            (StatusModel::Running, EventModel::Stderr(line)) => if origin == LogOrigin::Stderr {
                seq![line]
            } else {
                seq![]
            },
            _ => seq![],
        },
{
    let added = status.logged(event);
    if added.len() > 0 {
        assert(stream(added.drop_last(), origin) =~= seq![]);
    }
}

/// Whatever a started process reports, the log shows the lines of each of
/// its two outputs in the order in which that output wrote them, and none
/// that it did not write: what is logged of an output is the beginning of
/// what was written to it, and all of it while the process still runs.
pub proof fn law_output_order_kept(events: Seq<EventModel>, origin: LogOrigin)
    requires
        origin != LogOrigin::System,
    ensures
        stream(StatusModel::Running.logged_all(events), origin).is_prefix_of(
            written(events, origin),
        ),
        StatusModel::Running.after_all(events) is Running ==> stream(
            StatusModel::Running.logged_all(events),
            origin,
        ) == written(events, origin),
        StatusModel::Running.after_all(events) is Running || StatusModel::Running.after_all(
            events,
        ) is Completed,
    decreases events.len(),
{
    let start = StatusModel::Running;
    if events.len() > 0 {
        let before = events.drop_last();
        law_output_order_kept(before, origin);
        lemma_stream_add(
            start.logged_all(before),
            start.after_all(before).logged(events.last()),
            origin,
        );
        lemma_stream_of_logged(start.after_all(before), events.last(), origin);
    }
}

/// A process that runs and only writes has every line of each output in
/// the log, in the order written, and goes on running.
pub proof fn law_running_logs_every_line(events: Seq<EventModel>, origin: LogOrigin)
    requires
        only_output(events),
        origin != LogOrigin::System,
    ensures
        StatusModel::Running.after_all(events) is Running,
        stream(StatusModel::Running.logged_all(events), origin) == written(events, origin),
        StatusModel::Running.logged_all(events).len() == events.len(),
    decreases events.len(),
{
    if events.len() > 0 {
        let before = events.drop_last();
        law_running_logs_every_line(before, origin);
        let added = StatusModel::Running.logged(events.last());
        lemma_stream_add(StatusModel::Running.logged_all(before), added, origin);
        assert(stream(added.drop_last(), origin) =~= seq![]);
    }
}

/// Once a run is over, by its end or by a failed start, no event changes its
/// status or adds to the log.
pub proof fn law_finished_run_is_silent(status: StatusModel, events: Seq<EventModel>)
    requires
        status.is_final(),
    ensures
        status.after_all(events) == status,
        status.logged_all(events) == Seq::<LogLine>::empty(),
    decreases events.len(),
{
    if events.len() > 0 {
        law_finished_run_is_silent(status, events.drop_last());
    }
}

/// What a run makes of events that come one after the other: the second lot
/// is taken from where the first lot left the run.
pub proof fn lemma_events_add(status: StatusModel, first: Seq<EventModel>, then: Seq<EventModel>)
    ensures
        status.after_all(first + then) == status.after_all(first).after_all(then),
        status.logged_all(first + then) == status.logged_all(first) + status.after_all(
            first,
        ).logged_all(then),
    decreases then.len(),
{
    if then.len() > 0 {
        lemma_events_add(status, first, then.drop_last());
        assert((first + then).drop_last() =~= first + then.drop_last());
    }
}

/// A run that cannot be started leaves exactly one line in the log, written
/// by the dashboard, whatever is reported of it afterwards, and stays failed.
pub proof fn law_failed_start_logs_once(reason: Seq<char>, later: Seq<EventModel>)
    ensures
        StatusModel::Pending.after_all(seq![EventModel::SpawnFailed(reason)] + later)
            == StatusModel::Failed(reason),
        StatusModel::Pending.logged_all(seq![EventModel::SpawnFailed(reason)] + later) == seq![
            LogLine { origin: LogOrigin::System, text: SPAWN_FAILED_PREFIX@ + reason },
        ],
{
    let start = seq![EventModel::SpawnFailed(reason)];
    lemma_events_add(StatusModel::Pending, start, later);
    law_finished_run_is_silent(StatusModel::Failed(reason), later);
    assert(StatusModel::Pending.logged_all(start.drop_last()) =~= seq![]);
}

/// A run that starts, writes `output` and ends with `code` leaves one line
/// for each line written, behind them one line of the dashboard with the
/// exit status, and nothing for whatever is reported afterwards. The lines
/// of each output stand in the order in which they were written.
pub proof fn law_whole_run_logged(output: Seq<EventModel>, code: i32, later: Seq<EventModel>)
    requires
        only_output(output),
    ensures
        ({
            let events = seq![EventModel::Spawned] + output + seq![EventModel::Exited(code)]
                + later;
            let log = StatusModel::Pending.logged_all(events);
            &&& StatusModel::Pending.after_all(events) == StatusModel::Completed(code)
            &&& log.len() == output.len() + 1
            &&& log.last() == (LogLine {
                origin: LogOrigin::System,
                text: EXITED_PREFIX@ + decimal(code as int),
            })
            &&& stream(log, LogOrigin::Stdout) == written(output, LogOrigin::Stdout)
            &&& stream(log, LogOrigin::Stderr) == written(output, LogOrigin::Stderr)
        }),
{
    let spawn = seq![EventModel::Spawned];
    let exit = seq![EventModel::Exited(code)];
    let pending = StatusModel::Pending;
    let running = StatusModel::Running;
    let exit_line = LogLine {
        origin: LogOrigin::System,
        text: EXITED_PREFIX@ + decimal(code as int),
    };
    assert(pending.logged_all(spawn.drop_last()) =~= seq![]);
    law_running_logs_every_line(output, LogOrigin::Stdout);
    law_running_logs_every_line(output, LogOrigin::Stderr);
    assert(running.logged_all(exit.drop_last()) =~= seq![]);
    law_finished_run_is_silent(StatusModel::Completed(code), later);
    lemma_events_add(pending, spawn, output);
    lemma_events_add(pending, spawn + output, exit);
    lemma_events_add(pending, spawn + output + exit, later);
    lemma_stream_add(running.logged_all(output), seq![exit_line], LogOrigin::Stdout);
    lemma_stream_add(running.logged_all(output), seq![exit_line], LogOrigin::Stderr);
    lemma_stream_of_logged(running, EventModel::Exited(code), LogOrigin::Stdout);
    lemma_stream_of_logged(running, EventModel::Exited(code), LogOrigin::Stderr);
}

/// Mathematical model of a [`CommandTask`].
pub struct TaskModel {
    pub args: Seq<Seq<char>>,
    pub status: StatusModel,
}

/// One run of the control tool: the arguments it is called with and how far it has come.
#[derive(Debug)]
pub struct CommandTask {
    args: Vec<String>,
    status: CommandStatus,
}

impl View for CommandTask {
    type V = TaskModel;

    closed spec fn view(&self) -> TaskModel {
        TaskModel { args: names_view(self.args@), status: self.status@ }
    }
}

impl CommandTask {
    /// A run with `args` that has not started yet.
    pub fn new(args: Vec<String>) -> (task: Self)
        ensures
            task@ == (TaskModel {
                args: names_view(args@),
                status: StatusModel::Pending,
            }),
    {
        CommandTask { args, status: CommandStatus::Pending }
    }

    /// The arguments the tool is called with.
    pub fn args(&self) -> (args: &Vec<String>)
        ensures
            names_view(args@) == self@.args,
    {
        &self.args
    }

    /// How far the run has come.
    pub fn status(&self) -> (status: &CommandStatus)
        ensures
            status@ == self@.status,
    {
        &self.status
    }

    /// Takes note of `event`: moves the status on and appends to `log` what
    /// the event is to be logged with. The arguments stay, and so does every
    /// line that `log` already held.
    pub fn on_event(&mut self, event: CommandEvent, log: &mut Vec<LogEntry>)
        ensures
            final(self)@.args == old(self)@.args,
            final(self)@.status == old(self)@.status.after(event@),
            log_view(final(log)@) == log_view(old(log)@) + old(self)@.status.logged(event@),
    {
        let pending: bool = match &self.status {
            CommandStatus::Pending => true,
            _ => false,
        };
        let running: bool = match &self.status {
            CommandStatus::Running => true,
            _ => false,
        };
        if pending {
            match event {
                CommandEvent::Spawned => {
                    self.status = CommandStatus::Running;
                },
                CommandEvent::SpawnFailed(reason) => {
                    let mut text: String = SPAWN_FAILED_PREFIX.to_owned();
                    text.append(reason.as_str());
                    log.push(LogEntry { origin: LogOrigin::System, text });
                    self.status = CommandStatus::Failed(reason);
                },
                _ => {},
            }
        } else if running {
            match event {
                CommandEvent::Stdout(line) => {
                    log.push(LogEntry { origin: LogOrigin::Stdout, text: line });
                },
                CommandEvent::Stderr(line) => {
                    log.push(LogEntry { origin: LogOrigin::Stderr, text: line });
                },
                CommandEvent::Exited(code) => {
                    let mut text: String = EXITED_PREFIX.to_owned();
                    let status_text: String = i32_to_decimal(code);
                    text.append(status_text.as_str());
                    log.push(LogEntry { origin: LogOrigin::System, text });
                    self.status = CommandStatus::Completed(code);
                },
                _ => {},
            }
        }
    }
}

} // verus!
