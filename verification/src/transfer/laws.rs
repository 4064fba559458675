//! What holds of every operation.

use crate::transfer::channel::{
    first_step, next_step, probed, ActionView, Event, FileKind, Plan, RequestView, Stage, Strategy,
    READ_ONLY, WRITE_NEW,
};
use crate::transfer::command::{mkdir_line, quoted};
use crate::transfer::error::Verdict;
use vstd::prelude::*;

verus! {

/// Over the file sub-protocol, creating a directory starts by asking what the
/// path is. If it is a directory, the operation ends well and does nothing
/// more; if it is something else, the operation fails with the code 1.
pub proof fn mkdir_on_existing(path: Seq<char>, mode: u32, kind: FileKind)
    ensures
        first_step(RequestView::Mkdir { path, mode }, Strategy::Sftp) == (Plan::Next {
            stage: Stage::Stating,
            action: ActionView::Stat { path },
        }),
        kind == FileKind::Directory ==> next_step(
            RequestView::Mkdir { path, mode },
            Stage::Stating,
            Event::Found(kind),
        ) == Plan::Finish(Verdict::Success),
        kind != FileKind::Directory ==> next_step(
            RequestView::Mkdir { path, mode },
            Stage::Stating,
            Event::Found(kind),
        ) == Plan::Finish(Verdict::ExitCode { code: 1, reason: "not a directory"@ }),
{
}

/// A command that ends with a status other than zero fails its operation with
/// exactly that status, once the channel is closed.
pub proof fn exit_status_surfaces(request: RequestView, status: i32)
    requires
        status != 0,
    ensures
        next_step(request, Stage::Waiting, Event::Status(status)) == (Plan::Next {
            stage: Stage::Closing { status },
            action: ActionView::Close,
        }),
        next_step(request, Stage::Closing { status }, Event::Done) == Plan::Finish(
            Verdict::ExitCode { code: status, reason: request.complaint(status) },
        ),
{
}

/// Writing a file and reading it back address the same file: over the file
/// sub-protocol both open the path as it was given, and through the shell both
/// commands name it by the same quoted word. Writing opens the file for
/// writing only, makes it if need be with the mode 0644, and empties it.
pub proof fn put_and_get_name_one_file(path: Seq<char>)
    ensures
        first_step(RequestView::Put { path }, Strategy::Sftp) == (Plan::Next {
            stage: Stage::Opening,
            action: ActionView::Open { path, flags: WRITE_NEW, mode: 0o644 },
        }),
        first_step(RequestView::Get { path }, Strategy::Sftp) == (Plan::Next {
            stage: Stage::Opening,
            action: ActionView::Open { path, flags: READ_ONLY, mode: 0 },
        }),
        (RequestView::Put { path }).command() == "cat > "@ + quoted(path),
        (RequestView::Get { path }).command() == "cat "@ + quoted(path),
{
}

/// A session is probed at most once: the probe selects a strategy, and an
/// operation that starts under a strategy does not probe.
pub proof fn probed_once(request: RequestView, strategy: Strategy, event: Event)
    ensures
        probed(event) != Strategy::Unprobed,
        strategy != Strategy::Unprobed ==> first_step(request, strategy) is Next,
        strategy != Strategy::Unprobed ==> first_step(request, strategy)->action
            != ActionView::Probe,
{
}

/// How far into its operation a stage is.
pub open spec fn rank(stage: Stage) -> nat {
    match stage {
        Stage::Probing => 0,
        Stage::Stating => 1,
        Stage::Creating => 2,
        Stage::Opening => 1,
        Stage::Copying => 2,
        Stage::Removing => 1,
        Stage::Connecting => 1,
        Stage::Starting => 2,
        Stage::Launching => 3,
        Stage::Feeding => 4,
        Stage::Draining => 4,
        Stage::Ending => 5,
        Stage::Waiting => 6,
        Stage::Closing { .. } => 7,
    }
}

/// Every event takes an operation further or ends it, so an operation is over
/// after eight actions at most; and a command is run only after the command
/// channel's session was opened, so an operation runs one command at most.
pub proof fn every_step_advances(request: RequestView, stage: Stage, event: Event)
    ensures
        next_step(request, stage, event) matches Plan::Next { stage: later, .. } ==> rank(stage)
            < rank(later) <= 7,
        next_step(request, stage, event) matches Plan::Next { action, .. } ==> (action
            is Exec <==> stage == Stage::Starting),
        next_step(request, stage, event) matches Plan::Next {
            action: ActionView::Exec { command },
            ..
        } ==> command == request.command(),
{
}

/// The actions of an operation from a plan on, given what comes of each.
pub open spec fn actions(request: RequestView, plan: Plan, events: Seq<Event>) -> Seq<ActionView>
    decreases events.len(),
{
    match plan {
        Plan::Finish(_) => Seq::empty(),
        Plan::Next { stage, action } => if events.len() == 0 {
            seq![action]
        } else {
            seq![action] + actions(
                request,
                next_step(request, stage, events[0]),
                events.drop_first(),
            )
        },
    }
}

/// Through the shell, creating a directory takes one command channel and runs
/// one command on it, which is the `mkdir` line for the path and the mode.
pub proof fn mkdir_through_shell(path: Seq<char>, mode: u32, events: Seq<Event>)
    requires
        events.len() == 6,
        forall|i: int| 0 <= i < 6 ==> events[i] is Done || events[i] is Status,
    ensures
        actions(
            RequestView::Mkdir { path, mode },
            first_step(RequestView::Mkdir { path, mode }, Strategy::Shell),
            events,
        ) == seq![
            ActionView::OpenChannel,
            ActionView::OpenSession,
            ActionView::Exec { command: mkdir_line(path, mode) },
            ActionView::SendEof,
            ActionView::ExitStatus,
            ActionView::Close,
        ],
{
    let request = RequestView::Mkdir { path, mode };
    let line = ActionView::Exec { command: mkdir_line(path, mode) };
    let after_channel = events.drop_first();
    let after_session = after_channel.drop_first();
    let after_launch = after_session.drop_first();
    let after_input = after_launch.drop_first();
    let after_status = after_input.drop_first();
    assert(after_channel[0] == events[1]);
    assert(after_session[0] == events[2]);
    assert(after_launch[0] == events[3]);
    assert(after_input[0] == events[4]);
    assert(after_status[0] == events[5]);
    reveal_with_fuel(actions, 8);
    let session = next_step(request, Stage::Connecting, events[0]);
    let launch = next_step(request, Stage::Starting, events[1]);
    let input = next_step(request, Stage::Launching, events[2]);
    let status = next_step(request, Stage::Ending, events[3]);
    let close = next_step(request, Stage::Waiting, events[4]);
    assert(next_step(request, close->stage, events[5]) is Finish);
    assert(actions(request, close, after_status) == seq![ActionView::Close]);
    assert(actions(request, status, after_input) == seq![
        ActionView::ExitStatus,
        ActionView::Close,
    ]);
    assert(actions(request, input, after_launch) == seq![
        ActionView::SendEof,
        ActionView::ExitStatus,
        ActionView::Close,
    ]);
    assert(actions(request, launch, after_session) == seq![
        line,
        ActionView::SendEof,
        ActionView::ExitStatus,
        ActionView::Close,
    ]);
    assert(actions(request, session, after_channel) == seq![
        ActionView::OpenSession,
        line,
        ActionView::SendEof,
        ActionView::ExitStatus,
        ActionView::Close,
    ]);
}

} // verus!
