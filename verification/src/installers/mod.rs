//! Running installation scripts: the line protocol they speak, the executor
//! that turns their output into progress events and log entries, and the
//! installers that say which script to run and what its exit code means.

use vstd::prelude::*;
use vstd::string::*;
use crate::error::{outcome_view, InstallerError, InstallerErrorView};
use crate::installers::protocol::{classify, parse_line, LineView, ParsedLine};
use crate::utils::text::{decimal, push_decimal, push_signed_decimal, strings_view};

pub mod dependencies;
pub mod panel;
pub mod pipeline;
pub mod protocol;
pub mod wings;

verus! {

/// The exit code recorded for a program that ended without one.
pub const NO_EXIT_CODE: i32 = -1;

/// A progress report: a percentage and a message.
#[derive(Debug, PartialEq, Eq)]
pub struct ProgressEvent {
    pub percentage: u16,
    pub message: String,
}

/// The mathematical content of a [`ProgressEvent`].
pub struct ProgressEventView {
    pub percentage: u16,
    pub message: Seq<char>,
}

impl View for ProgressEvent {
    type V = ProgressEventView;

    open spec fn view(&self) -> ProgressEventView {
        ProgressEventView { percentage: self.percentage, message: self.message@ }
    }
}

/// One entry of the installation log: what happened, and when.
#[derive(Debug)]
pub struct LogEntry {
    pub timestamp: String,
    pub message: String,
}

/// The text of a log entry: the time in square brackets, a space, the
/// message.
pub open spec fn log_line(timestamp: Seq<char>, message: Seq<char>) -> Seq<char> {
    "["@ + timestamp + "] "@ + message
}

impl LogEntry {
    /// Returns the entry as one line of the log file.
    pub fn line(&self) -> (text: String)
        ensures
            text@ == log_line(self.timestamp@, self.message@),
    {
        let mut text = String::from_str("[");
        text.append(self.timestamp.as_str());
        text.append("] ");
        text.append(self.message.as_str());
        text
    }
}

/// The form in which the log gives the time: year, month, day, hour,
/// minute and second.
pub open spec fn timestamp_format() -> Seq<char> {
    "%Y-%m-%d %H:%M:%S"@
}

/// The local time as `chrono::Local::now` reads it from the system clock,
/// written by `DateTime::format` in the given form. The form is held to
/// [`timestamp_format`], which names fields that `chrono` knows; of the
/// text that comes back nothing is claimed, as it differs from call to
/// call. `chrono` panics where the system clock stands before 1970.
#[verifier::external_body]
fn local_time(format: &str) -> String
    requires
        format@ == timestamp_format(),
{
    chrono::Local::now().format(format).to_string()
}

/// How the run of an external program ended.
#[derive(Debug)]
pub enum ProcessEnd {
    /// The program ran to its end, with an exit code unless a signal
    /// stopped it.
    Exited(Option<i32>),
    /// The program could not be started, for the given reason.
    SpawnFailed(String),
    /// Reading the program's output failed, for the given reason.
    ReadFailed(String),
    /// Waiting for the program's end failed, for the given reason.
    WaitFailed(String),
}

/// The mathematical content of a [`ProcessEnd`].
pub enum ProcessEndView {
    Exited(Option<i32>),
    SpawnFailed(Seq<char>),
    ReadFailed(Seq<char>),
    WaitFailed(Seq<char>),
}

impl View for ProcessEnd {
    type V = ProcessEndView;

    open spec fn view(&self) -> ProcessEndView {
        match self {
            ProcessEnd::Exited(code) => ProcessEndView::Exited(*code),
            ProcessEnd::SpawnFailed(reason) => ProcessEndView::SpawnFailed(reason@),
            ProcessEnd::ReadFailed(reason) => ProcessEndView::ReadFailed(reason@),
            ProcessEnd::WaitFailed(reason) => ProcessEndView::WaitFailed(reason@),
        }
    }
}

/// Everything one run of an external program gave: the lines it wrote, in
/// the order in which it wrote them, and how it ended.
#[derive(Debug)]
pub struct ProcessOutput {
    pub stdout: Vec<String>,
    pub stderr: Vec<String>,
    pub end: ProcessEnd,
}

/// The mathematical content of a [`ProcessOutput`].
pub struct ProcessOutputView {
    pub stdout: Seq<Seq<char>>,
    pub stderr: Seq<Seq<char>>,
    pub end: ProcessEndView,
}

impl View for ProcessOutput {
    type V = ProcessOutputView;

    open spec fn view(&self) -> ProcessOutputView {
        ProcessOutputView {
            stdout: strings_view(self.stdout@),
            stderr: strings_view(self.stderr@),
            end: self.end@,
        }
    }
}

/// The views of the events of a vector, in order.
pub open spec fn progress_view(events: Seq<ProgressEvent>) -> Seq<ProgressEventView> {
    events.map_values(|event: ProgressEvent| event@)
}

/// The messages of the entries of a vector, in order.
pub open spec fn messages_view(entries: Seq<LogEntry>) -> Seq<Seq<char>> {
    entries.map_values(|entry: LogEntry| entry.message@)
}

/// The exit code of a program that ran to its end.
pub open spec fn exit_code(code: Option<i32>) -> i32 {
    match code {
        Some(c) => c,
        None => NO_EXIT_CODE,
    }
}

/// What the executor reports to the progress sink for a line of standard
/// output: a progress line its percentage and message, an error line zero
/// and its message, plain output nothing.
pub open spec fn stdout_events(line: Seq<char>) -> Seq<ProgressEventView> {
    match classify(line) {
        LineView::Progress(percentage, message) => seq![
            ProgressEventView { percentage, message },
        ],
        LineView::Error(message) => seq![ProgressEventView { percentage: 0, message }],
        LineView::Plain => Seq::empty(),
    }
}

/// The log message for a line of standard output.
pub open spec fn stdout_message(line: Seq<char>) -> Seq<char> {
    match classify(line) {
        LineView::Progress(percentage, message) => "Progress: "@ + decimal(percentage as int)
            + "% - "@ + message,
        LineView::Error(message) => "Error: "@ + message,
        LineView::Plain => "Output: "@ + line,
    }
}

/// What the executor reports to the progress sink for a line of standard
/// error: an error line zero and its message, any other line nothing.
pub open spec fn stderr_events(line: Seq<char>) -> Seq<ProgressEventView> {
    match classify(line) {
        LineView::Error(message) => seq![ProgressEventView { percentage: 0, message }],
        _ => Seq::empty(),
    }
}

/// The log message for a line of standard error.
pub open spec fn stderr_message(line: Seq<char>) -> Seq<char> {
    "Stderr: "@ + line
}

/// The log message that opens a run.
pub open spec fn start_message(cmd: Seq<char>) -> Seq<char> {
    "Executing: "@ + cmd
}

/// The log message that closes a run.
pub open spec fn exit_message(code: i32) -> Seq<char> {
    "Exit code: "@ + decimal(code as int)
}

/// The events reported for the first `n` of the given lines of standard
/// output, in order.
pub open spec fn stdout_events_upto(lines: Seq<Seq<char>>, n: int) -> Seq<ProgressEventView>
    decreases n,
{
    if n <= 0 {
        Seq::empty()
    } else {
        stdout_events_upto(lines, n - 1) + stdout_events(lines[n - 1])
    }
}

/// The events reported for the first `n` of the given lines of standard
/// error, in order.
pub open spec fn stderr_events_upto(lines: Seq<Seq<char>>, n: int) -> Seq<ProgressEventView>
    decreases n,
{
    if n <= 0 {
        Seq::empty()
    } else {
        stderr_events_upto(lines, n - 1) + stderr_events(lines[n - 1])
    }
}

/// What a run gives back: the exit code of a program that ran to its end;
/// for a program that could not be started or waited for, that the command
/// failed, with the reason; for output that could not be read, the reason
/// as an error of input and output.
pub open spec fn end_result(end: ProcessEndView) -> Result<i32, InstallerErrorView> {
    match end {
        ProcessEndView::Exited(code) => Ok(exit_code(code)),
        ProcessEndView::SpawnFailed(reason) => Err(
            InstallerErrorView::CommandFailed("Failed to spawn: "@ + reason),
        ),
        ProcessEndView::WaitFailed(reason) => Err(
            InstallerErrorView::CommandFailed("Failed to wait: "@ + reason),
        ),
        ProcessEndView::ReadFailed(reason) => Err(InstallerErrorView::Io(reason)),
    }
}

/// The log messages written when a run ends: the exit code of a program
/// that ran to its end, nothing for one that did not.
pub open spec fn end_messages(end: ProcessEndView) -> Seq<Seq<char>> {
    match end {
        ProcessEndView::Exited(code) => seq![exit_message(exit_code(code))],
        _ => Seq::empty(),
    }
}

/// All events reported for a run, in order: those of standard output, then
/// those of standard error. A program that could not be started reports
/// nothing.
pub open spec fn run_events(
    stdout: Seq<Seq<char>>,
    stderr: Seq<Seq<char>>,
    end: ProcessEndView,
) -> Seq<ProgressEventView> {
    if end is SpawnFailed {
        Seq::empty()
    } else {
        stdout_events_upto(stdout, stdout.len() as int) + stderr_events_upto(
            stderr,
            stderr.len() as int,
        )
    }
}

/// All log messages written for a run, in order: the command, one message
/// for each line of standard output, one for each line of standard error,
/// and the exit code. A program that could not be started leaves only the
/// command.
pub open spec fn run_messages(
    cmd: Seq<char>,
    stdout: Seq<Seq<char>>,
    stderr: Seq<Seq<char>>,
    end: ProcessEndView,
) -> Seq<Seq<char>> {
    if end is SpawnFailed {
        seq![start_message(cmd)]
    } else {
        seq![start_message(cmd)] + stdout.map_values(|line: Seq<char>| stdout_message(line))
            + stderr.map_values(|line: Seq<char>| stderr_message(line)) + end_messages(end)
    }
}

/// The error of a phase whose script ended with a code other than zero: the
/// name of what was installed, and the code.
pub open spec fn exit_failure(what: Seq<char>, code: i32) -> InstallerErrorView {
    InstallerErrorView::InstallationFailed(what + " failed with exit code "@ + decimal(code as int))
}

/// What the run of a phase's script means for the phase: it went well
/// where the script ended with code zero; it failed with the run's own
/// error where the run failed, and with [`exit_failure`] where the script
/// ended with another code.
pub open spec fn phase_result(what: Seq<char>, run: Result<i32, InstallerErrorView>) -> Result<
    (),
    InstallerErrorView,
> {
    match run {
        Ok(code) => if code == 0 {
            Ok(())
        } else {
            Err(exit_failure(what, code))
        },
        Err(e) => Err(e),
    }
}

/// The view of what a run gave back.
pub open spec fn run_view(run: Result<i32, InstallerError>) -> Result<i32, InstallerErrorView> {
    match run {
        Ok(code) => Ok(code),
        Err(e) => Err(e@),
    }
}

/// Says what the run of a phase's script means for the phase that installs
/// `what`.
pub fn check_run(what: &str, run: Result<i32, InstallerError>) -> (result: Result<
    (),
    InstallerError,
>)
    ensures
        outcome_view(result) == phase_result(what@, run_view(run)),
{
    match run {
        Ok(code) => {
            if code == 0 {
                Ok(())
            } else {
                let mut text = String::from_str(what);
                text.append(" failed with exit code ");
                push_signed_decimal(&mut text, code);
                Err(InstallerError::InstallationFailed(text))
            }
        },
        Err(e) => Err(e),
    }
}

/// Turns the output of an external program into progress events and log
/// entries. Events and entries collect in the executor, in the order in
/// which they arose, until they are taken out.
#[derive(Debug)]
pub struct CommandExecutor {
    events: Vec<ProgressEvent>,
    log: Vec<LogEntry>,
}

/// The mathematical content of a [`CommandExecutor`]: the events and the
/// log messages that were not taken out yet.
pub struct CommandExecutorView {
    pub events: Seq<ProgressEventView>,
    pub messages: Seq<Seq<char>>,
}

impl View for CommandExecutor {
    type V = CommandExecutorView;

    closed spec fn view(&self) -> CommandExecutorView {
        CommandExecutorView {
            events: progress_view(self.events@),
            messages: messages_view(self.log@),
        }
    }
}

impl CommandExecutor {
    /// Returns an executor that holds no event and no log entry.
    pub fn new() -> (executor: CommandExecutor)
        ensures
            executor@.events == Seq::<ProgressEventView>::empty(),
            executor@.messages == Seq::<Seq<char>>::empty(),
    {
        CommandExecutor { events: Vec::new(), log: Vec::new() }
    }

    /// Writes `message` to the log, with the local time.
    pub fn log(&mut self, message: &str)
        ensures
            final(self)@.messages == old(self)@.messages.push(message@),
            final(self)@.events == old(self)@.events,
    {
        let entry = LogEntry {
            timestamp: local_time("%Y-%m-%d %H:%M:%S"),
            message: message.to_owned(),
        };
        self.log.push(entry);
    }

    /// Reports a progress event to the sink.
    fn emit(&mut self, percentage: u16, message: String)
        ensures
            final(self)@.events == old(self)@.events.push(
                ProgressEventView { percentage, message: message@ },
            ),
            final(self)@.messages == old(self)@.messages,
    {
        self.events.push(ProgressEvent { percentage, message });
    }

    /// Opens a run: writes the command to the log.
    pub fn begin(&mut self, cmd: &str)
        ensures
            final(self)@.messages == old(self)@.messages.push(start_message(cmd@)),
            final(self)@.events == old(self)@.events,
    {
        let mut message = String::from_str("Executing: ");
        message.append(cmd);
        self.log(message.as_str());
    }

    /// Takes one line of the program's standard output: reports what the
    /// line says and writes it to the log.
    pub fn stdout_line(&mut self, line: &str)
        ensures
            final(self)@.events == old(self)@.events + stdout_events(line@),
            final(self)@.messages == old(self)@.messages.push(stdout_message(line@)),
    {
        match parse_line(line) {
            ParsedLine::Progress(percentage, text) => {
                let mut message = String::from_str("Progress: ");
                push_decimal(&mut message, percentage as u64);
                message.append("% - ");
                message.append(text.as_str());
                self.log(message.as_str());
                self.emit(percentage, text);
            },
            ParsedLine::Error(text) => {
                let mut message = String::from_str("Error: ");
                message.append(text.as_str());
                self.log(message.as_str());
                self.emit(0, text);
            },
            ParsedLine::Plain => {
                let mut message = String::from_str("Output: ");
                message.append(line);
                self.log(message.as_str());
            },
        }
    }

    /// Takes one line of the program's standard error: writes it to the
    /// log, and reports it where it is an error line.
    pub fn stderr_line(&mut self, line: &str)
        ensures
            final(self)@.events == old(self)@.events + stderr_events(line@),
            final(self)@.messages == old(self)@.messages.push(stderr_message(line@)),
    {
        let mut message = String::from_str("Stderr: ");
        message.append(line);
        self.log(message.as_str());
        match parse_line(line) {
            ParsedLine::Error(text) => {
                self.emit(0, text);
            },
            _ => {},
        }
    }

    /// Closes a run. For a program that ran to its end, writes the exit
    /// code to the log and returns it, [`NO_EXIT_CODE`] where the program
    /// gave none. For any other end, returns the error.
    pub fn finish(&mut self, end: &ProcessEnd) -> (result: Result<i32, InstallerError>)
        ensures
            final(self)@.events == old(self)@.events,
            final(self)@.messages == old(self)@.messages + end_messages(end@),
            run_view(result) == end_result(end@),
    {
        match end {
            ProcessEnd::Exited(code) => {
                let exit = match code {
                    Some(c) => *c,
                    None => NO_EXIT_CODE,
                };
                let mut message = String::from_str("Exit code: ");
                push_signed_decimal(&mut message, exit);
                self.log(message.as_str());
                Ok(exit)
            },
            ProcessEnd::SpawnFailed(reason) => {
                let mut text = String::from_str("Failed to spawn: ");
                text.append(reason.as_str());
                Err(InstallerError::CommandFailed(text))
            },
            ProcessEnd::WaitFailed(reason) => {
                let mut text = String::from_str("Failed to wait: ");
                text.append(reason.as_str());
                Err(InstallerError::CommandFailed(text))
            },
            ProcessEnd::ReadFailed(reason) => Err(InstallerError::Io(reason.clone())),
        }
    }

    /// Carries out a whole run of `cmd` from what the program gave: writes
    /// the command to the log, takes the lines of standard output and then
    /// those of standard error, and closes the run.
    pub fn run_streaming(&mut self, cmd: &str, output: &ProcessOutput) -> (result: Result<
        i32,
        InstallerError,
    >)
        ensures
            final(self)@.events == old(self)@.events + run_events(
                strings_view(output.stdout@),
                strings_view(output.stderr@),
                output.end@,
            ),
            final(self)@.messages == old(self)@.messages + run_messages(
                cmd@,
                strings_view(output.stdout@),
                strings_view(output.stderr@),
                output.end@,
            ),
            run_view(result) == end_result(output.end@),
    {
        let ghost stdout = strings_view(output.stdout@);
        let ghost stderr = strings_view(output.stderr@);
        self.begin(cmd);
        if let ProcessEnd::SpawnFailed(_) = &output.end {
            return self.finish(&output.end);
        }
        let ghost opened = self@.messages;
        let mut i: usize = 0;
        while i < output.stdout.len()
            invariant
                i <= output.stdout.len(),
                stdout == strings_view(output.stdout@),
                self@.events == old(self)@.events + stdout_events_upto(stdout, i as int),
                self@.messages == opened + stdout.subrange(0, i as int).map_values(
                    |line: Seq<char>| stdout_message(line),
                ),
            decreases output.stdout.len() - i,
        {
            self.stdout_line(output.stdout[i].as_str());
            i = i + 1;
        }
        let ghost read_out = self@;
        let mut j: usize = 0;
        while j < output.stderr.len()
            invariant
                j <= output.stderr.len(),
                stderr == strings_view(output.stderr@),
                self@.events == read_out.events + stderr_events_upto(stderr, j as int),
                self@.messages == read_out.messages + stderr.subrange(0, j as int).map_values(
                    |line: Seq<char>| stderr_message(line),
                ),
            decreases output.stderr.len() - j,
        {
            self.stderr_line(output.stderr[j].as_str());
            j = j + 1;
        }
        self.finish(&output.end)
    }

    /// Carries out a whole run of `cmd`, as [`CommandExecutor::run_streaming`]
    /// does.
    pub fn run_simple(&mut self, cmd: &str, output: &ProcessOutput) -> (result: Result<
        i32,
        InstallerError,
    >)
        ensures
            final(self)@.events == old(self)@.events + run_events(
                strings_view(output.stdout@),
                strings_view(output.stderr@),
                output.end@,
            ),
            final(self)@.messages == old(self)@.messages + run_messages(
                cmd@,
                strings_view(output.stdout@),
                strings_view(output.stderr@),
                output.end@,
            ),
            run_view(result) == end_result(output.end@),
    {
        self.run_streaming(cmd, output)
    }

    /// Takes out the events reported since they were last taken out, in the
    /// order in which they were reported.
    pub fn take_events(&mut self) -> (events: Vec<ProgressEvent>)
        ensures
            progress_view(events@) == old(self)@.events,
            final(self)@.events == Seq::<ProgressEventView>::empty(),
            final(self)@.messages == old(self)@.messages,
    {
        let mut events: Vec<ProgressEvent> = Vec::new();
        std::mem::swap(&mut events, &mut self.events);
        events
    }

    /// Takes out the log entries written since they were last taken out, in
    /// the order in which they were written.
    pub fn take_log(&mut self) -> (entries: Vec<LogEntry>)
        ensures
            messages_view(entries@) == old(self)@.messages,
            final(self)@.messages == Seq::<Seq<char>>::empty(),
            final(self)@.events == old(self)@.events,
    {
        let mut entries: Vec<LogEntry> = Vec::new();
        std::mem::swap(&mut entries, &mut self.log);
        entries
    }
}

} // verus!
