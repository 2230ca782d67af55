//! The build, as a machine that is told what happened and says what to do.
//!
//! A build reads the source directory entry by entry. For each entry whose
//! name is that of a documentation source it has the section's directory
//! created and then the converter run, and it stops at the first thing that
//! fails. The [`Dispatcher`] decides; its caller reads the directory, creates
//! directories, prints lines and runs commands, and reports back.

use crate::classify::{classification, classify, Format};
use crate::command::{conversion, trace_of, CommandLine, CommandSpec};
use crate::layout::{join, page_path, section_dir, section_directory};
use vstd::prelude::*;

verus! {

/// Why a build failed.
#[derive(Clone, Copy, Debug, PartialEq, Eq, Structural)]
pub enum BuildError {
    /// The source directory, or one of its entries, could not be read.
    Scan,
    /// The directory of a section could not be created.
    Directory,
    /// A converter could not be started, or did not exit successfully.
    Command,
}

/// What is said of a build that failed with `error`.
pub open spec fn message_of(error: BuildError) -> Seq<char> {
    match error {
        BuildError::Scan => "Cannot read the source directory"@,
        BuildError::Directory => "Cannot create the section directory"@,
        BuildError::Command => "Command failed"@,
    }
}

impl BuildError {
    /// A short description of the error.
    pub fn message(&self) -> (text: &'static str)
        ensures
            text@ == message_of(*self),
    {
        match self {
            BuildError::Scan => "Cannot read the source directory",
            BuildError::Directory => "Cannot create the section directory",
            BuildError::Command => "Command failed",
        }
    }
}

/// One conversion: a source, the page it becomes, and how.
#[derive(Clone, Debug, PartialEq, Eq)]
pub struct Job {
    /// The path of the source.
    pub input: String,
    /// The directory of the page's section.
    pub directory: String,
    /// The path of the page.
    pub output: String,
    /// The markup of the source.
    pub format: Format,
}

/// A conversion as the contracts see it.
pub struct JobView {
    pub input: Seq<char>,
    pub directory: Seq<char>,
    pub output: Seq<char>,
    pub format: Format,
}

impl View for Job {
    type V = JobView;

    open spec fn view(&self) -> JobView {
        JobView {
            input: self.input@,
            directory: self.directory@,
            output: self.output@,
            format: self.format,
        }
    }
}

/// The conversion that the file at `path`, whose name is `name`, calls for
/// in a build into `destination`: none unless the name is that of a source.
pub open spec fn planned(destination: Seq<char>, path: Seq<char>, name: Seq<char>) -> Option<
    JobView,
> {
    match classification(name) {
        Some(page) => Some(
            JobView {
                input: path,
                directory: section_dir(destination, page.section),
                output: page_path(destination, page),
                format: page.format,
            },
        ),
        None => None,
    }
}

/// The command that carries out `job`.
pub open spec fn command_of(job: JobView) -> CommandLine {
    conversion(job.format, job.input, job.output)
}

/// Plans the conversion of the file at `path`, whose name is `name`, for a
/// build into `destination`. Files that are no documentation sources get
/// none.
pub fn plan(destination: &str, path: &str, name: &str) -> (job: Option<Job>)
    ensures
        match job {
            Some(job) => planned(destination@, path@, name@) == Some(job@),
            None => planned(destination@, path@, name@) is None,
        },
{
    match classify(name) {
        Some(found) => {
            let directory = section_directory(destination, found.section);
            let output = join(directory.as_str(), found.stem.as_str());
            Some(Job { input: path.to_owned(), directory, output, format: found.format })
        },
        None => None,
    }
}

impl Job {
    /// The command that carries out this conversion.
    pub fn command(&self) -> (command: CommandSpec)
        ensures
            command@ == command_of(self@),
    {
        CommandSpec::for_format(self.format, self.input.as_str(), self.output.as_str())
    }
}

/// What the caller of a build is asked to do next.
#[derive(Debug, PartialEq, Eq)]
pub enum Request {
    /// Read the next entry of the source directory.
    ReadEntry,
    /// Create this directory, with the ancestors it lacks.
    CreateDirectory(String),
    /// Run this command and wait until it ends.
    Run(CommandSpec),
    /// Stop: the build has ended, with this result.
    Finish(Result<(), BuildError>),
}

/// A request as the contracts see it.
pub enum RequestView {
    ReadEntry,
    CreateDirectory(Seq<char>),
    Run(CommandLine),
    Finish(Result<(), BuildError>),
}

impl View for Request {
    type V = RequestView;

    open spec fn view(&self) -> RequestView {
        match self {
            Request::ReadEntry => RequestView::ReadEntry,
            Request::CreateDirectory(path) => RequestView::CreateDirectory(path@),
            Request::Run(command) => RequestView::Run(command@),
            Request::Finish(result) => RequestView::Finish(*result),
        }
    }
}

/// What the caller of a build reports back.
#[derive(Clone, Debug, PartialEq, Eq)]
pub enum Reply {
    /// The source directory has a further entry: the file at `path`, whose
    /// name is `name`.
    Entry { path: String, name: String },
    /// The source directory has no further entry.
    End,
    /// What was asked for has been done. Of a command this means that it
    /// ran and exited successfully.
    Done,
    /// What was asked for has failed.
    Failed,
}

/// A reply as the contracts see it.
pub enum ReplyView {
    Entry { path: Seq<char>, name: Seq<char> },
    End,
    Done,
    Failed,
}

impl View for Reply {
    type V = ReplyView;

    open spec fn view(&self) -> ReplyView {
        match self {
            Reply::Entry { path, name } => ReplyView::Entry { path: path@, name: name@ },
            Reply::End => ReplyView::End,
            Reply::Done => ReplyView::Done,
            Reply::Failed => ReplyView::Failed,
        }
    }
}

/// The reply to a command that was to be run. `None` says that it could
/// not be started, `Some` whether it exited successfully. Only a command
/// that ran and exited successfully is done; one that could not be started
/// has failed like one that ran and did not succeed.
pub open spec fn exit_reply(exit: Option<bool>) -> ReplyView {
    if exit == Some(true) {
        ReplyView::Done
    } else {
        ReplyView::Failed
    }
}

impl Reply {
    /// The reply to a command that was to be run, from how that went:
    /// `None` if it could not be started, else whether it exited
    /// successfully.
    pub fn from_exit(exit: Option<bool>) -> (reply: Reply)
        ensures
            reply@ == exit_reply(exit),
    {
        match exit {
            Some(true) => Reply::Done,
            _ => Reply::Failed,
        }
    }
}

/// How far a build has come.
pub enum Phase {
    /// The next entry of the source directory is awaited.
    Scanning,
    /// The directory of this conversion's section is being created.
    Creating(JobView),
    /// The command of this conversion is running.
    Converting(JobView),
    /// The build has ended, with this result.
    Finished(Result<(), BuildError>),
}

/// A build as the contracts see it: where the pages go, and how far it has
/// come.
pub struct State {
    pub destination: Seq<char>,
    pub phase: Phase,
}

/// The build into `destination` before anything has happened.
pub open spec fn initial(destination: Seq<char>) -> State {
    State { destination, phase: Phase::Scanning }
}

/// What a build in `state` waits for.
pub open spec fn pending(state: State) -> RequestView {
    match state.phase {
        Phase::Scanning => RequestView::ReadEntry,
        Phase::Creating(job) => RequestView::CreateDirectory(job.directory),
        Phase::Converting(job) => RequestView::Run(command_of(job)),
        Phase::Finished(result) => RequestView::Finish(result),
    }
}

/// The phase that follows `state` once `reply` has come in.
///
/// An entry leads to the creation of its section's directory if it is a
/// documentation source, and to the next entry if it is not. A created
/// directory leads to the conversion, a successful conversion to the next
/// entry, and the end of the directory to a successful end. Whatever fails
/// ends the build with the error of what was being done. A reply that does
/// not answer what the build waits for changes nothing, and nothing changes
/// a build that has ended.
pub open spec fn next_phase(state: State, reply: ReplyView) -> Phase {
    match (state.phase, reply) {
        (Phase::Scanning, ReplyView::Entry { path, name }) => match planned(
            state.destination,
            path,
            name,
        ) {
            Some(job) => Phase::Creating(job),
            None => Phase::Scanning,
        },
        (Phase::Scanning, ReplyView::End) => Phase::Finished(Ok(())),
        (Phase::Scanning, ReplyView::Failed) => Phase::Finished(Err(BuildError::Scan)),
        (Phase::Creating(job), ReplyView::Done) => Phase::Converting(job),
        (Phase::Creating(_), ReplyView::Failed) => Phase::Finished(Err(BuildError::Directory)),
        (Phase::Converting(_), ReplyView::Done) => Phase::Scanning,
        (Phase::Converting(_), ReplyView::Failed) => Phase::Finished(Err(BuildError::Command)),
        (phase, _) => phase,
    }
}

/// The build that follows `state` once `reply` has come in.
pub open spec fn next(state: State, reply: ReplyView) -> State {
    State { destination: state.destination, phase: next_phase(state, reply) }
}

/// The line that tells the enclosing build to run this step again when the
/// file at `input` changes.
pub open spec fn dependency_of(input: Seq<char>) -> Seq<char> {
    "cargo:rerun-if-changed="@ + input
}

/// The line to print when `reply` comes in for a build in `state`: the
/// command's trace before a conversion starts, the dependency on the source
/// after it has succeeded, and nothing otherwise.
pub open spec fn report(state: State, reply: ReplyView) -> Option<Seq<char>> {
    match (state.phase, reply) {
        (Phase::Creating(job), ReplyView::Done) => Some(trace_of(command_of(job))),
        (Phase::Converting(job), ReplyView::Done) => Some(dependency_of(job.input)),
        _ => None,
    }
}

/// How far a build has come, with the conversion in hand.
#[derive(Debug)]
enum Progress {
    Scanning,
    Creating(Job),
    Converting(Job),
    Finished(Result<(), BuildError>),
}

impl View for Progress {
    type V = Phase;

    closed spec fn view(&self) -> Phase {
        match self {
            Progress::Scanning => Phase::Scanning,
            Progress::Creating(job) => Phase::Creating(job@),
            Progress::Converting(job) => Phase::Converting(job@),
            Progress::Finished(result) => Phase::Finished(*result),
        }
    }
}

/// What a build answers to a reply.
#[derive(Debug, PartialEq, Eq)]
pub struct Step {
    /// A line to print before anything else is done, if there is one.
    pub report: Option<String>,
    /// What to do next.
    pub request: Request,
}

/// A step as the contracts see it.
pub struct StepView {
    pub report: Option<Seq<char>>,
    pub request: RequestView,
}

impl View for Step {
    type V = StepView;

    open spec fn view(&self) -> StepView {
        StepView {
            report: match self.report {
                Some(line) => Some(line@),
                None => None,
            },
            request: self.request@,
        }
    }
}

/// A build in progress.
///
/// The caller carries out what [`Dispatcher::pending`] asks for, hands the
/// outcome to [`Dispatcher::advance`], prints the line that comes back if
/// there is one, and goes on with the request that comes with it, until that
/// request is to finish.
#[derive(Debug)]
pub struct Dispatcher {
    destination: String,
    progress: Progress,
}

impl View for Dispatcher {
    type V = State;

    closed spec fn view(&self) -> State {
        State { destination: self.destination@, phase: self.progress@ }
    }
}

impl Dispatcher {
    /// Starts a build that writes its pages below `destination`.
    pub fn new(destination: &str) -> (build: Dispatcher)
        ensures
            build@ == initial(destination@),
    {
        Dispatcher { destination: destination.to_owned(), progress: Progress::Scanning }
    }

    /// What the build waits for.
    pub fn pending(&self) -> (request: Request)
        ensures
            request@ == pending(self@),
    {
        match &self.progress {
            Progress::Scanning => Request::ReadEntry,
            Progress::Creating(job) => Request::CreateDirectory(job.directory.clone()),
            Progress::Converting(job) => Request::Run(job.command()),
            Progress::Finished(result) => Request::Finish(*result),
        }
    }

    /// The result of the build, once it has ended.
    pub fn result(&self) -> (result: Option<Result<(), BuildError>>)
        ensures
            result == match self@.phase {
                Phase::Finished(result) => Some(result),
                _ => None,
            },
    {
        match &self.progress {
            Progress::Finished(result) => Some(*result),
            _ => None,
        }
    }

    /// Takes in what happened and says what to do next.
    pub fn advance(&mut self, reply: Reply) -> (step: Step)
        ensures
            final(self)@ == next(old(self)@, reply@),
            step@.report == report(old(self)@, reply@),
            step@.request == pending(final(self)@),
    {
        let mut progress = Progress::Scanning;
        core::mem::swap(&mut self.progress, &mut progress);
        let mut line: Option<String> = None;
        self.progress = match (progress, reply) {
            (Progress::Scanning, Reply::Entry { path, name }) => {
                match plan(self.destination.as_str(), path.as_str(), name.as_str()) {
                    Some(job) => Progress::Creating(job),
                    None => Progress::Scanning,
                }
            },
            (Progress::Scanning, Reply::End) => Progress::Finished(Ok(())),
            (Progress::Scanning, Reply::Failed) => Progress::Finished(Err(BuildError::Scan)),
            (Progress::Creating(job), Reply::Done) => {
                line = Some(job.command().trace_line());
                Progress::Converting(job)
            },
            (Progress::Creating(_), Reply::Failed) => Progress::Finished(
                Err(BuildError::Directory),
            ),
            (Progress::Converting(job), Reply::Done) => {
                line = Some(dependency_line(job.input.as_str()));
                Progress::Scanning
            },
            (Progress::Converting(_), Reply::Failed) => Progress::Finished(
                Err(BuildError::Command),
            ),
            (progress, _) => progress,
        };
        Step { report: line, request: self.pending() }
    }
}

/// Builds the line that declares the dependency on the file at `input`.
pub fn dependency_line(input: &str) -> (line: String)
    ensures
        line@ == dependency_of(input@),
{
    let mut line = "cargo:rerun-if-changed=".to_owned();
    line.append(input);
    line
}

} // verus!
