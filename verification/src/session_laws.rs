//! What holds of every session, whatever the events.

use crate::decode::decode_line;
use crate::error::ErrorView;
use crate::ports::{known_prefix, listing_text, Direction, NameView};
use crate::session::{
    action_after, failure_of, first, is_over, listens, next, phase_after, writes, ActionView,
    CommandView, EventView, PhaseView, SessionView,
};
use vstd::prelude::*;

verus! {

/// The phase is one that the command can be in.
pub open spec fn consistent(session: SessionView) -> bool {
    let command = session.command;
    match session.phase {
        PhaseView::Listing(_) | PhaseView::Printing(_) | PhaseView::Reporting { .. } => command is Ls,
        PhaseView::ResolvingInput => listens(command) is Some,
        PhaseView::ResolvingOutput { input } => writes(command) is Some && (input is Some
            <==> listens(command) is Some),
        PhaseView::ConnectingInput { output } => listens(command) is Some && (output is Some
            <==> writes(command) is Some),
        PhaseView::ConnectingOutput | PhaseView::Reading | PhaseView::Sending => writes(command)
            is Some,
        PhaseView::Closing => listens(command) is Some && writes(command) is Some,
        PhaseView::Parked => listens(command) is Some,
        PhaseView::Finished => listens(command) is None,
        PhaseView::Failed => true,
    }
}

/// Every port of the enumeration reported a name.
pub open spec fn all_known(names: Seq<NameView>) -> bool {
    forall|k: int| 0 <= k < names.len() ==> (#[trigger] names[k]) is Ok
}

/// A session begins in a phase that its command can be in.
pub proof fn lemma_first_is_consistent(command: CommandView)
    ensures
        consistent(SessionView { command, phase: first(command).0 }),
{
}

/// A step leads from a phase that the command can be in to another one.
pub proof fn lemma_next_is_consistent(session: SessionView, event: EventView)
    requires
        consistent(session),
        next(session, event) is Some,
    ensures
        consistent(SessionView { command: session.command, phase: phase_after(session, event) }),
{
}

/// Every failure is fatal: while a session is under way, an event that
/// reports a failure ends it with the error for that failure.
pub proof fn lemma_failure_is_fatal(session: SessionView, event: EventView)
    requires
        !is_over(session.phase),
        failure_of(event) is Some,
    ensures
        next(session, event) == Some(
            (PhaseView::Failed, ActionView::Fail(failure_of(event)->0)),
        ),
{
}

/// A session that has ended accepts no event: nothing is tried again.
pub proof fn lemma_over_accepts_nothing(session: SessionView, event: EventView)
    requires
        is_over(session.phase),
    ensures
        next(session, event) is None,
{
}

/// The action that ends a session is handed out on entering the last phase
/// and at no other time: `Park`, `Finish` and `Fail` come exactly with
/// `Parked`, `Finished` and `Failed`.
pub proof fn lemma_last_action(session: SessionView, event: EventView)
    requires
        next(session, event) is Some,
    ensures
        phase_after(session, event) is Parked <==> action_after(session, event)->0 is Park,
        phase_after(session, event) is Finished <==> action_after(session, event)->0 is Finish,
        phase_after(session, event) is Failed <==> action_after(session, event)->0 is Fail,
{
}

/// A command that listens never ends with success by itself, and a command
/// that does not listen never stays.
pub proof fn lemma_listeners_stay(session: SessionView, event: EventView)
    requires
        consistent(session),
        next(session, event) is Some,
    ensures
        listens(session.command) is Some ==> !(action_after(session, event)->0 is Finish),
        listens(session.command) is None ==> !(action_after(session, event)->0 is Park),
{
}

/// Bytes are sent only in answer to a line that was read, and they are
/// what that line decodes to.
pub proof fn lemma_sent_bytes_are_decoded(session: SessionView, event: EventView)
    requires
        action_after(session, event) is Some,
        action_after(session, event)->0 is Send,
    ensures
        session.phase is Reading,
        event is Line,
        decode_line(event->Line_0) == Ok::<Seq<u8>, ErrorView>(
            action_after(session, event)->0->Send_0,
        ),
{
}

/// A line that was read is sent as the bytes it decodes to, or it is at
/// fault and ends the session with its error: no later line is read.
pub proof fn lemma_line_is_sent_or_fatal(command: CommandView, line: Seq<char>)
    ensures
        next(SessionView { command, phase: PhaseView::Reading }, EventView::Line(line)) == Some(
            match decode_line(line) {
                Ok(bytes) => (PhaseView::Sending, ActionView::Send(bytes)),
                Err(error) => (PhaseView::Failed, ActionView::Fail(error)),
            },
        ),
{
}

/// After a message is sent the next line is read: one message per line, in
/// the order of the lines.
pub proof fn lemma_next_line_follows_send(command: CommandView)
    ensures
        next(SessionView { command, phase: PhaseView::Sending }, EventView::Done) == Some(
            (PhaseView::Reading, ActionView::ReadLine),
        ),
{
}

/// At the end of standard input a command that only writes ends with
/// success; one that listens as well closes its output connection and then
/// stays.
pub proof fn lemma_end_of_input(command: CommandView)
    ensures
        listens(command) is None ==> next(
            SessionView { command, phase: PhaseView::Reading },
            EventView::EndOfInput,
        ) == Some((PhaseView::Finished, ActionView::Finish)),
        listens(command) is Some ==> next(
            SessionView { command, phase: PhaseView::Reading },
            EventView::EndOfInput,
        ) == Some((PhaseView::Closing, ActionView::CloseOutput)),
        next(SessionView { command, phase: PhaseView::Closing }, EventView::Done) == Some(
            (PhaseView::Parked, ActionView::Park),
        ),
{
}

/// Listing runs in this order: the inputs are enumerated and their lines
/// printed, then the outputs are enumerated and their lines printed, then the
/// command ends with success. Where every port reported its name, and
/// however many ports there are of either kind, each list holds one line for
/// every port, in the order of its enumeration, and counts from one.
pub proof fn lemma_listing_run(inputs: Seq<NameView>, outputs: Seq<NameView>)
    requires
        all_known(inputs),
        all_known(outputs),
    ensures
        first(CommandView::Ls) == (
            PhaseView::Listing(Direction::Input),
            ActionView::Enumerate(Direction::Input),
        ),
        next(
            SessionView { command: CommandView::Ls, phase: PhaseView::Listing(Direction::Input) },
            EventView::Ports(inputs),
        ) == Some(
            (
                PhaseView::Printing(Direction::Input),
                ActionView::Print(listing_text(Direction::Input, inputs, inputs.len())),
            ),
        ),
        next(
            SessionView { command: CommandView::Ls, phase: PhaseView::Printing(Direction::Input) },
            EventView::Done,
        ) == Some(
            (PhaseView::Listing(Direction::Output), ActionView::Enumerate(Direction::Output)),
        ),
        next(
            SessionView { command: CommandView::Ls, phase: PhaseView::Listing(Direction::Output) },
            EventView::Ports(outputs),
        ) == Some(
            (
                PhaseView::Printing(Direction::Output),
                ActionView::Print(listing_text(Direction::Output, outputs, outputs.len())),
            ),
        ),
        next(
            SessionView { command: CommandView::Ls, phase: PhaseView::Printing(Direction::Output) },
            EventView::Done,
        ) == Some((PhaseView::Finished, ActionView::Finish)),
{
    crate::ports::lemma_known_prefix(inputs, inputs.len() as int);
    crate::ports::lemma_known_prefix(outputs, outputs.len() as int);
}

} // verus!
