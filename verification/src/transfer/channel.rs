//! The steps of an operation on the device.

use crate::text::{push_signed_decimal, signed_decimal};
use crate::transfer::command::{
    get_command, get_line, mkdir_command, mkdir_line, put_command, put_line, rm_command, rm_line,
};
use crate::transfer::error::{verdict, TransferError, Verdict};
use vstd::prelude::*;
use vstd::string::*;

verus! {

/// How a session is used: through its file sub-protocol, or through commands
/// run by the shell of the device. Which of the two it is gets known by one
/// probe.
#[derive(Clone, Copy, Debug, PartialEq, Eq, Structural)]
pub enum Strategy {
    Unprobed,
    Sftp,
    Shell,
}

/// What the device says a path is.
#[derive(Clone, Copy, Debug, PartialEq, Eq, Structural)]
pub enum FileKind {
    Special,
    Symlink,
    Regular,
    Directory,
    Unknown,
}

/// An operation on the device.
#[derive(Debug)]
pub enum Request {
    Mkdir { path: String, mode: u32 },
    Put { path: String },
    Get { path: String },
    Rm { path: String },
}

/// An operation, as contracts speak of it.
pub enum RequestView {
    Mkdir { path: Seq<char>, mode: u32 },
    Put { path: Seq<char> },
    Get { path: Seq<char> },
    Rm { path: Seq<char> },
}

impl View for Request {
    type V = RequestView;

    open spec fn view(&self) -> RequestView {
        match self {
            Request::Mkdir { path, mode } => RequestView::Mkdir { path: path@, mode: *mode },
            Request::Put { path } => RequestView::Put { path: path@ },
            Request::Get { path } => RequestView::Get { path: path@ },
            Request::Rm { path } => RequestView::Rm { path: path@ },
        }
    }
}

impl RequestView {
    /// The path on the device that the operation is about.
    pub open spec fn path(self) -> Seq<char> {
        match self {
            RequestView::Mkdir { path, .. } => path,
            RequestView::Put { path } => path,
            RequestView::Get { path } => path,
            RequestView::Rm { path } => path,
        }
    }

    /// The mode of the directory to create; zero for another operation.
    pub open spec fn mode(self) -> u32 {
        match self {
            RequestView::Mkdir { mode, .. } => mode,
            _ => 0,
        }
    }

    /// The command that does the operation through the shell.
    pub open spec fn command(self) -> Seq<char> {
        match self {
            RequestView::Mkdir { path, mode } => mkdir_line(path, mode),
            RequestView::Put { path } => put_line(path),
            RequestView::Get { path } => get_line(path),
            RequestView::Rm { path } => rm_line(path),
        }
    }

    /// The program that the command runs.
    pub open spec fn tool(self) -> Seq<char> {
        match self {
            RequestView::Mkdir { .. } => "mkdir"@,
            RequestView::Put { .. } => "cat"@,
            RequestView::Get { .. } => "cat"@,
            RequestView::Rm { .. } => "rm"@,
        }
    }

    /// What is said of a command that ended with the given status.
    pub open spec fn complaint(self, status: i32) -> Seq<char> {
        self.tool() + " command exited with status "@ + signed_decimal(status as int)
    }
}

/// The flags that open a file for writing only, make it if it is not there
/// and empty it if it is.
pub const WRITE_NEW: i32 = 0o1101;

/// The flags that open a file for reading only.
pub const READ_ONLY: i32 = 0;

/// What the driver has to do on the session.
#[derive(Debug)]
pub enum Action {
    /// Ask the session for its file sub-protocol.
    Probe,
    /// Ask what the path is.
    Stat { path: String },
    /// Create the directory with the mode.
    CreateDir { path: String, mode: u32 },
    /// Open the file with the flags, and with the mode if that makes it.
    Open { path: String, flags: i32, mode: u32 },
    /// Copy all of the source into the open file.
    WriteFile,
    /// Copy all of the open file into the sink.
    ReadFile,
    /// Remove the file.
    RemoveFile { path: String },
    /// Get a new command channel.
    OpenChannel,
    /// Open a session on the command channel.
    OpenSession,
    /// Run the command.
    Exec { command: String },
    /// Copy all of the source to the command's input.
    WriteInput,
    /// Copy all of the command's output into the sink.
    ReadOutput,
    /// Tell the command that its input has ended.
    SendEof,
    /// Ask for the status that the command ended with.
    ExitStatus,
    /// Close the command channel.
    Close,
}

/// An action, as contracts speak of it.
pub enum ActionView {
    Probe,
    Stat { path: Seq<char> },
    CreateDir { path: Seq<char>, mode: u32 },
    Open { path: Seq<char>, flags: i32, mode: u32 },
    WriteFile,
    ReadFile,
    RemoveFile { path: Seq<char> },
    OpenChannel,
    OpenSession,
    Exec { command: Seq<char> },
    WriteInput,
    ReadOutput,
    SendEof,
    ExitStatus,
    Close,
}

impl View for Action {
    type V = ActionView;

    open spec fn view(&self) -> ActionView {
        match self {
            Action::Probe => ActionView::Probe,
            Action::Stat { path } => ActionView::Stat { path: path@ },
            Action::CreateDir { path, mode } => ActionView::CreateDir { path: path@, mode: *mode },
            Action::Open { path, flags, mode } => ActionView::Open {
                path: path@,
                flags: *flags,
                mode: *mode,
            },
            Action::WriteFile => ActionView::WriteFile,
            Action::ReadFile => ActionView::ReadFile,
            Action::RemoveFile { path } => ActionView::RemoveFile { path: path@ },
            Action::OpenChannel => ActionView::OpenChannel,
            Action::OpenSession => ActionView::OpenSession,
            Action::Exec { command } => ActionView::Exec { command: command@ },
            Action::WriteInput => ActionView::WriteInput,
            Action::ReadOutput => ActionView::ReadOutput,
            Action::SendEof => ActionView::SendEof,
            Action::ExitStatus => ActionView::ExitStatus,
            Action::Close => ActionView::Close,
        }
    }
}

/// What came of the last action.
#[derive(Debug)]
pub enum Event {
    /// It succeeded and there is nothing to tell: also a path of no known
    /// kind, and a command whose status the device does not give.
    Done,
    /// The path exists and is of this kind.
    Found(FileKind),
    /// The command ended with this status.
    Status(i32),
    /// The session failed.
    Failed(libssh_rs::Error),
    /// Reading the source or writing the sink failed.
    Broken(std::io::Error),
}

/// Which action of an operation is under way.
#[derive(Clone, Copy, Debug, PartialEq, Eq, Structural)]
pub enum Stage {
    Probing,
    Stating,
    Creating,
    Opening,
    Copying,
    Removing,
    Connecting,
    Starting,
    Launching,
    Feeding,
    Draining,
    Ending,
    Waiting,
    Closing { status: i32 },
}

/// What follows an event, as contracts speak of it.
pub enum Plan {
    Next { stage: Stage, action: ActionView },
    Finish(Verdict),
}

/// The strategy that the outcome of the probe stands for: the file
/// sub-protocol unless the probe failed.
pub open spec fn probed(event: Event) -> Strategy {
    match event {
        Event::Failed(_) => Strategy::Shell,
        Event::Broken(_) => Strategy::Shell,
        _ => Strategy::Sftp,
    }
}

/// How an operation starts under a strategy.
pub open spec fn first_step(request: RequestView, strategy: Strategy) -> Plan {
    match strategy {
        Strategy::Unprobed => Plan::Next { stage: Stage::Probing, action: ActionView::Probe },
        Strategy::Sftp => match request {
            RequestView::Mkdir { path, .. } => Plan::Next {
                stage: Stage::Stating,
                action: ActionView::Stat { path },
            },
            RequestView::Put { path } => Plan::Next {
                stage: Stage::Opening,
                action: ActionView::Open { path, flags: WRITE_NEW, mode: 0o644 },
            },
            RequestView::Get { path } => Plan::Next {
                stage: Stage::Opening,
                action: ActionView::Open { path, flags: READ_ONLY, mode: 0 },
            },
            RequestView::Rm { path } => Plan::Next {
                stage: Stage::Removing,
                action: ActionView::RemoveFile { path },
            },
        },
        Strategy::Shell => Plan::Next { stage: Stage::Connecting, action: ActionView::OpenChannel },
    }
}

/// How an operation goes on after an action that succeeded; `status` is what
/// the command ended with, zero if that is not known.
pub open spec fn carried_on(request: RequestView, stage: Stage, status: i32) -> Plan {
    match stage {
        Stage::Probing => first_step(request, Strategy::Sftp),
        Stage::Stating => Plan::Next {
            stage: Stage::Creating,
            action: ActionView::CreateDir { path: request.path(), mode: request.mode() },
        },
        Stage::Creating => Plan::Finish(Verdict::Success),
        Stage::Opening => Plan::Next {
            stage: Stage::Copying,
            action: if request is Put {
                ActionView::WriteFile
            } else {
                ActionView::ReadFile
            },
        },
        Stage::Copying => Plan::Finish(Verdict::Success),
        Stage::Removing => Plan::Finish(Verdict::Success),
        Stage::Connecting => Plan::Next { stage: Stage::Starting, action: ActionView::OpenSession },
        Stage::Starting => Plan::Next {
            stage: Stage::Launching,
            action: ActionView::Exec { command: request.command() },
        },
        Stage::Launching => match request {
            RequestView::Put { .. } => Plan::Next {
                stage: Stage::Feeding,
                action: ActionView::WriteInput,
            },
            RequestView::Get { .. } => Plan::Next {
                stage: Stage::Draining,
                action: ActionView::ReadOutput,
            },
            _ => Plan::Next { stage: Stage::Ending, action: ActionView::SendEof },
        },
        Stage::Feeding => Plan::Next { stage: Stage::Ending, action: ActionView::SendEof },
        Stage::Draining => Plan::Next { stage: Stage::Waiting, action: ActionView::ExitStatus },
        Stage::Ending => Plan::Next { stage: Stage::Waiting, action: ActionView::ExitStatus },
        Stage::Waiting => Plan::Next {
            stage: Stage::Closing { status },
            action: ActionView::Close,
        },
        Stage::Closing { status: ended } => if ended == 0 {
            Plan::Finish(Verdict::Success)
        } else {
            Plan::Finish(Verdict::ExitCode { code: ended, reason: request.complaint(ended) })
        },
    }
}

/// What follows an event at a stage of an operation.
///
/// The probe and the question what a path is cannot fail the operation: a
/// failed probe selects the shell, and a path that is not known to exist is
/// created. Everywhere else a failure ends the operation with its error.
pub open spec fn next_step(request: RequestView, stage: Stage, event: Event) -> Plan {
    match stage {
        Stage::Probing => first_step(request, probed(event)),
        Stage::Stating => match event {
            Event::Found(kind) => if kind == FileKind::Directory {
                Plan::Finish(Verdict::Success)
            } else {
                Plan::Finish(Verdict::ExitCode { code: 1, reason: "not a directory"@ })
            },
            _ => carried_on(request, stage, 0),
        },
        _ => match event {
            Event::Failed(e) => Plan::Finish(Verdict::Transport(e)),
            Event::Broken(e) => Plan::Finish(Verdict::Io(e)),
            Event::Status(status) => carried_on(request, stage, status),
            _ => carried_on(request, stage, 0),
        },
    }
}

/// What is known of a session: the strategy that its one probe selected.
#[derive(Debug)]
pub struct TransferChannel {
    strategy: Strategy,
}

/// An operation that is under way.
#[derive(Debug)]
pub struct Transfer {
    pub request: Request,
    pub stage: Stage,
}

/// What the driver gets after each event: the operation and the next action,
/// or the result of the operation, which is then over.
#[derive(Debug)]
pub enum Step {
    Next { transfer: Transfer, action: Action },
    Finish(Result<(), TransferError>),
}

impl Step {
    /// Whether this step is what the plan says for an operation.
    pub open spec fn follows(self, request: RequestView, plan: Plan) -> bool {
        match plan {
            Plan::Next { stage, action } => {
                &&& self matches Step::Next { transfer, action: taken }
                &&& transfer.request@ == request
                &&& transfer.stage == stage
                &&& taken@ == action
            },
            Plan::Finish(end) => self matches Step::Finish(result) && verdict(result) == end,
        }
    }
}

impl Request {
    fn path(&self) -> (path: String)
        ensures
            path@ == self@.path(),
    {
        match self {
            Request::Mkdir { path, .. } => path.clone(),
            Request::Put { path } => path.clone(),
            Request::Get { path } => path.clone(),
            Request::Rm { path } => path.clone(),
        }
    }

    fn command(&self) -> (line: String)
        ensures
            line@ == self@.command(),
    {
        match self {
            Request::Mkdir { path, mode } => mkdir_command(path.as_str(), *mode),
            Request::Put { path } => put_command(path.as_str()),
            Request::Get { path } => get_command(path.as_str()),
            Request::Rm { path } => rm_command(path.as_str()),
        }
    }

    fn complaint(&self, status: i32) -> (reason: String)
        ensures
            reason@ == self@.complaint(status),
    {
        let mut reason = match self {
            Request::Mkdir { .. } => String::from_str("mkdir"),
            Request::Put { .. } => String::from_str("cat"),
            Request::Get { .. } => String::from_str("cat"),
            Request::Rm { .. } => String::from_str("rm"),
        };
        reason.append(" command exited with status ");
        push_signed_decimal(&mut reason, status);
        reason
    }

    fn begin(self, strategy: Strategy) -> (step: Step)
        ensures
            step.follows(self@, first_step(self@, strategy)),
    {
        let (stage, action) = match strategy {
            Strategy::Unprobed => (Stage::Probing, Action::Probe),
            Strategy::Sftp => match &self {
                Request::Mkdir { path, .. } => (
                    Stage::Stating,
                    Action::Stat { path: path.clone() },
                ),
                Request::Put { path } => (
                    Stage::Opening,
                    Action::Open { path: path.clone(), flags: WRITE_NEW, mode: 0o644 },
                ),
                Request::Get { path } => (
                    Stage::Opening,
                    Action::Open { path: path.clone(), flags: READ_ONLY, mode: 0 },
                ),
                Request::Rm { path } => (
                    Stage::Removing,
                    Action::RemoveFile { path: path.clone() },
                ),
            },
            Strategy::Shell => (Stage::Connecting, Action::OpenChannel),
        };
        Step::Next { transfer: Transfer { request: self, stage }, action }
    }

    fn carry_on(self, stage: Stage, status: i32) -> (step: Step)
        ensures
            step.follows(self@, carried_on(self@, stage, status)),
    {
        let (stage, action) = match stage {
            Stage::Probing => {
                return self.begin(Strategy::Sftp);
            },
            Stage::Stating => {
                let mode: u32 = match &self {
                    Request::Mkdir { mode, .. } => *mode,
                    _ => 0,
                };
                (Stage::Creating, Action::CreateDir { path: self.path(), mode })
            },
            Stage::Creating | Stage::Copying | Stage::Removing => {
                return Step::Finish(Ok(()));
            },
            Stage::Opening => match &self {
                Request::Put { .. } => (Stage::Copying, Action::WriteFile),
                _ => (Stage::Copying, Action::ReadFile),
            },
            Stage::Connecting => (Stage::Starting, Action::OpenSession),
            Stage::Starting => (Stage::Launching, Action::Exec { command: self.command() }),
            Stage::Launching => match &self {
                Request::Put { .. } => (Stage::Feeding, Action::WriteInput),
                Request::Get { .. } => (Stage::Draining, Action::ReadOutput),
                _ => (Stage::Ending, Action::SendEof),
            },
            Stage::Feeding => (Stage::Ending, Action::SendEof),
            Stage::Draining | Stage::Ending => (Stage::Waiting, Action::ExitStatus),
            Stage::Waiting => (Stage::Closing { status }, Action::Close),
            Stage::Closing { status: ended } => {
                if ended == 0 {
                    return Step::Finish(Ok(()));
                }
                let reason = self.complaint(ended);
                return Step::Finish(Err(TransferError::ExitCode { code: ended, reason }));
            },
        };
        Step::Next { transfer: Transfer { request: self, stage }, action }
    }
}

impl TransferChannel {
    /// The strategy that the probe selected, if there was one yet.
    pub closed spec fn spec_strategy(&self) -> Strategy {
        self.strategy
    }

    /// What is known of a session before its probe.
    pub fn new() -> (channel: TransferChannel)
        ensures
            channel.spec_strategy() == Strategy::Unprobed,
    {
        TransferChannel { strategy: Strategy::Unprobed }
    }

    /// The strategy that the probe selected, if there was one yet.
    #[verifier::when_used_as_spec(spec_strategy)]
    pub fn strategy(&self) -> (strategy: Strategy)
        ensures
            strategy == self.spec_strategy(),
    {
        self.strategy
    }
}

/// The operations on a device. Each starts an operation and gives its first
/// action; `Transfer::advance` gives those that follow.
pub trait FileTransfer {
    fn mkdir(&self, dir: &str, mode: u32) -> Step;

    fn put(&self, target: &str) -> Step;

    fn get(&self, source: &str) -> Step;

    fn rm(&self, path: &str) -> Step;
}

impl FileTransfer for TransferChannel {
    /// Creates a directory with the given mode, unless it is there already.
    fn mkdir(&self, dir: &str, mode: u32) -> (step: Step)
        ensures
            step.follows(
                RequestView::Mkdir { path: dir@, mode },
                first_step(RequestView::Mkdir { path: dir@, mode }, self.strategy()),
            ),
    {
        Request::Mkdir { path: String::from_str(dir), mode }.begin(self.strategy)
    }

    /// Writes all of a source to a file, which is made or emptied first.
    fn put(&self, target: &str) -> (step: Step)
        ensures
            step.follows(
                RequestView::Put { path: target@ },
                first_step(RequestView::Put { path: target@ }, self.strategy()),
            ),
    {
        Request::Put { path: String::from_str(target) }.begin(self.strategy)
    }

    /// Reads all of a file into a sink.
    fn get(&self, source: &str) -> (step: Step)
        ensures
            step.follows(
                RequestView::Get { path: source@ },
                first_step(RequestView::Get { path: source@ }, self.strategy()),
            ),
    {
        Request::Get { path: String::from_str(source) }.begin(self.strategy)
    }

    /// Removes a file; through the shell, also a directory with all below it.
    fn rm(&self, path: &str) -> (step: Step)
        ensures
            step.follows(
                RequestView::Rm { path: path@ },
                first_step(RequestView::Rm { path: path@ }, self.strategy()),
            ),
    {
        Request::Rm { path: String::from_str(path) }.begin(self.strategy)
    }
}

impl Transfer {
    /// Takes the outcome of the last action and says what follows. The
    /// outcome of the probe is kept in the channel, for this operation and for
    /// those after it.
    pub fn advance(self, channel: &mut TransferChannel, event: Event) -> (step: Step)
        ensures
            step.follows(self.request@, next_step(self.request@, self.stage, event)),
            final(channel).strategy() == if self.stage == Stage::Probing {
                probed(event)
            } else {
                old(channel).strategy()
            },
    {
        let Transfer { request, stage } = self;
        match stage {
            Stage::Probing => {
                let strategy = match event {
                    Event::Failed(_) => Strategy::Shell,
                    Event::Broken(_) => Strategy::Shell,
                    _ => Strategy::Sftp,
                };
                channel.strategy = strategy;
                request.begin(strategy)
            },
            Stage::Stating => match event {
                Event::Found(kind) => {
                    if kind == FileKind::Directory {
                        Step::Finish(Ok(()))
                    } else {
                        Step::Finish(
                            Err(
                                TransferError::ExitCode {
                                    code: 1,
                                    reason: String::from_str("not a directory"),
                                },
                            ),
                        )
                    }
                },
                _ => request.carry_on(stage, 0),
            },
            _ => match event {
                Event::Failed(e) => Step::Finish(Err(TransferError::Transport(e))),
                Event::Broken(e) => Step::Finish(Err(TransferError::Io(e))),
                Event::Status(status) => request.carry_on(stage, status),
                _ => request.carry_on(stage, 0),
            },
        }
    }
}

} // verus!
