//! The decisions of a command, parted from the work that carries them out.
//!
//! A session hands out one [`Action`] at a time. Whoever drives it performs
//! the action on the MIDI subsystem or on standard input and output, and
//! reports what happened as an [`Event`]; the session answers with the next
//! action. Every failure ends the session; nothing is tried again.

use crate::decode::{decode, decode_line};
use crate::error::{Error, ErrorView};
use crate::format::Options;
use crate::ports::{
    find_port, first_failure, known_prefix, listing, listing_text, names_view, resolve, Direction,
    NameView,
};
use vstd::prelude::*;

verus! {

/// What the program was asked to do.
#[derive(Debug, PartialEq, Eq)]
pub enum Command {
    /// List the input ports, then the output ports.
    Ls,
    /// Send the lines of standard input to an output port.
    W { out_port_name: String },
    /// Print what arrives at an input port.
    R { in_port_name: String, options: Options },
    /// Print what arrives at an input port while sending the lines of
    /// standard input to an output port.
    Rw { in_port_name: String, out_port_name: String, options: Options },
}

/// A [`Command`] with its names as character sequences.
pub enum CommandView {
    Ls,
    W { out_port_name: Seq<char> },
    R { in_port_name: Seq<char>, options: Options },
    Rw { in_port_name: Seq<char>, out_port_name: Seq<char>, options: Options },
}

impl View for Command {
    type V = CommandView;

    open spec fn view(&self) -> CommandView {
        match self {
            Command::Ls => CommandView::Ls,
            Command::W { out_port_name } => CommandView::W { out_port_name: out_port_name@ },
            Command::R { in_port_name, options } => CommandView::R {
                in_port_name: in_port_name@,
                options: *options,
            },
            Command::Rw { in_port_name, out_port_name, options } => CommandView::Rw {
                in_port_name: in_port_name@,
                out_port_name: out_port_name@,
                options: *options,
            },
        }
    }
}

/// What is to be done next.
#[derive(Debug, PartialEq, Eq)]
pub enum Action {
    /// Enumerate the ports of one direction and ask each for its name.
    /// Answered by [`Event::Ports`].
    Enumerate(Direction),
    /// Write the text to standard output. Answered by [`Event::Done`].
    Print(String),
    /// Open the input port at this index of the last enumeration of inputs,
    /// and from then on print every message that arrives, formatted with
    /// these options. Answered by [`Event::Done`].
    ConnectInput { port: usize, options: Options },
    /// Open the output port at this index of the last enumeration of
    /// outputs. Answered by [`Event::Done`].
    ConnectOutput { port: usize },
    /// Read one line from standard input. Answered by [`Event::Line`] or
    /// [`Event::EndOfInput`].
    ReadLine,
    /// Send these bytes as one message on the output connection. Answered by
    /// [`Event::Done`].
    Send(Vec<u8>),
    /// Close the output connection. Answered by [`Event::Done`].
    CloseOutput,
    /// Keep the process and its input connection alive until it is killed.
    Park,
    /// End the process with success.
    Finish,
    /// End the process with this error.
    Fail(Error),
}

/// An [`Action`] with its texts and bytes as sequences.
pub enum ActionView {
    Enumerate(Direction),
    Print(Seq<char>),
    ConnectInput { port: usize, options: Options },
    ConnectOutput { port: usize },
    ReadLine,
    Send(Seq<u8>),
    CloseOutput,
    Park,
    Finish,
    Fail(ErrorView),
}

impl View for Action {
    type V = ActionView;

    open spec fn view(&self) -> ActionView {
        match self {
            Action::Enumerate(direction) => ActionView::Enumerate(*direction),
            Action::Print(text) => ActionView::Print(text@),
            Action::ConnectInput { port, options } => ActionView::ConnectInput {
                port: *port,
                options: *options,
            },
            Action::ConnectOutput { port } => ActionView::ConnectOutput { port: *port },
            Action::ReadLine => ActionView::ReadLine,
            Action::Send(bytes) => ActionView::Send(bytes@),
            Action::CloseOutput => ActionView::CloseOutput,
            Action::Park => ActionView::Park,
            Action::Finish => ActionView::Finish,
            Action::Fail(error) => ActionView::Fail(error@),
        }
    }
}

/// What happened when the last action was performed.
#[derive(Debug, PartialEq, Eq)]
pub enum Event {
    /// The ports of the requested direction, in the order of the
    /// enumeration: for each its name, or the cause for which it gave none.
    Ports(Vec<Result<String, String>>),
    /// The action was carried out.
    Done,
    /// A line of standard input, without its line ending.
    Line(String),
    /// Standard input is at its end.
    EndOfInput,
    /// The MIDI subsystem failed.
    SubsystemFailed(String),
    /// Standard input or standard output failed.
    IoFailed(String),
}

/// An [`Event`] with its texts as character sequences.
pub enum EventView {
    Ports(Seq<NameView>),
    Done,
    Line(Seq<char>),
    EndOfInput,
    SubsystemFailed(Seq<char>),
    IoFailed(Seq<char>),
}

impl View for Event {
    type V = EventView;

    open spec fn view(&self) -> EventView {
        match self {
            Event::Ports(names) => EventView::Ports(names_view(names@)),
            Event::Done => EventView::Done,
            Event::Line(line) => EventView::Line(line@),
            Event::EndOfInput => EventView::EndOfInput,
            Event::SubsystemFailed(cause) => EventView::SubsystemFailed(cause@),
            Event::IoFailed(cause) => EventView::IoFailed(cause@),
        }
    }
}

/// What a session is waiting for.
#[derive(Debug, PartialEq, Eq)]
pub enum Phase {
    /// The ports of this direction, to list them.
    Listing(Direction),
    /// The end of printing the list of this direction.
    Printing(Direction),
    /// The end of printing the lines before a port that gave no name; the
    /// failure with this cause follows.
    Reporting { cause: String },
    /// The input ports, to find the one to listen to.
    ResolvingInput,
    /// The output ports, to find the one to write to; `input` is the input
    /// port found before, where the command listens as well.
    ResolvingOutput { input: Option<usize> },
    /// The input connection; `output` is the output port to open after it,
    /// where the command writes as well.
    ConnectingInput { output: Option<usize> },
    /// The output connection.
    ConnectingOutput,
    /// A line of standard input.
    Reading,
    /// The end of sending a message.
    Sending,
    /// The end of closing the output connection.
    Closing,
    /// Nothing more: the process stays until it is killed.
    Parked,
    /// Nothing more: the command ended with success.
    Finished,
    /// Nothing more: the command ended with an error.
    Failed,
}

/// A [`Phase`] with its text as a character sequence.
pub enum PhaseView {
    Listing(Direction),
    Printing(Direction),
    Reporting { cause: Seq<char> },
    ResolvingInput,
    ResolvingOutput { input: Option<usize> },
    ConnectingInput { output: Option<usize> },
    ConnectingOutput,
    Reading,
    Sending,
    Closing,
    Parked,
    Finished,
    Failed,
}

impl View for Phase {
    type V = PhaseView;

    open spec fn view(&self) -> PhaseView {
        match self {
            Phase::Listing(direction) => PhaseView::Listing(*direction),
            Phase::Printing(direction) => PhaseView::Printing(*direction),
            Phase::Reporting { cause } => PhaseView::Reporting { cause: cause@ },
            Phase::ResolvingInput => PhaseView::ResolvingInput,
            Phase::ResolvingOutput { input } => PhaseView::ResolvingOutput { input: *input },
            Phase::ConnectingInput { output } => PhaseView::ConnectingInput { output: *output },
            Phase::ConnectingOutput => PhaseView::ConnectingOutput,
            Phase::Reading => PhaseView::Reading,
            Phase::Sending => PhaseView::Sending,
            Phase::Closing => PhaseView::Closing,
            Phase::Parked => PhaseView::Parked,
            Phase::Finished => PhaseView::Finished,
            Phase::Failed => PhaseView::Failed,
        }
    }
}

/// A command under way.
#[derive(Debug, PartialEq, Eq)]
pub struct Session {
    /// The command, as it was given.
    pub command: Command,
    /// What the session is waiting for.
    pub phase: Phase,
}

/// A [`Session`] as its views.
pub struct SessionView {
    pub command: CommandView,
    pub phase: PhaseView,
}

impl View for Session {
    type V = SessionView;

    open spec fn view(&self) -> SessionView {
        SessionView { command: self.command@, phase: self.phase@ }
    }
}

/// The port that a command listens to, and how it prints, if it listens.
pub open spec fn listens(command: CommandView) -> Option<(Seq<char>, Options)> {
    match command {
        CommandView::R { in_port_name, options } => Some((in_port_name, options)),
        CommandView::Rw { in_port_name, out_port_name, options } => Some((in_port_name, options)),
        _ => None,
    }
}

/// The port that a command writes to, if it writes.
pub open spec fn writes(command: CommandView) -> Option<Seq<char>> {
    match command {
        CommandView::W { out_port_name } => Some(out_port_name),
        CommandView::Rw { in_port_name, out_port_name, options } => Some(out_port_name),
        _ => None,
    }
}

/// The session has ended: it waits for nothing and accepts no event.
pub open spec fn is_over(phase: PhaseView) -> bool {
    phase is Parked || phase is Finished || phase is Failed
}

/// The error that a failure event stands for.
pub open spec fn failure_of(event: EventView) -> Option<ErrorView> {
    match event {
        EventView::SubsystemFailed(cause) => Some(ErrorView::Subsystem { cause }),
        EventView::IoFailed(cause) => Some(ErrorView::Io { cause }),
        _ => None,
    }
}

/// How a command begins.
pub open spec fn first(command: CommandView) -> (PhaseView, ActionView) {
    if command is Ls {
        (PhaseView::Listing(Direction::Input), ActionView::Enumerate(Direction::Input))
    } else if listens(command) is Some {
        (PhaseView::ResolvingInput, ActionView::Enumerate(Direction::Input))
    } else {
        (PhaseView::ResolvingOutput { input: None }, ActionView::Enumerate(Direction::Output))
    }
}

/// What follows the enumeration of the ports to list: their lines are
/// printed, up to the first port that gave no name.
pub open spec fn after_listing(direction: Direction, names: Seq<NameView>) -> (
    PhaseView,
    ActionView,
) {
    let text = listing_text(direction, names, known_prefix(names));
    match first_failure(names) {
        Some(cause) => (PhaseView::Reporting { cause }, ActionView::Print(text)),
        None => (PhaseView::Printing(direction), ActionView::Print(text)),
    }
}

/// What follows the enumeration of the inputs of a command that listens.
pub open spec fn after_inputs(command: CommandView, names: Seq<NameView>) -> Option<
    (PhaseView, ActionView),
> {
    match listens(command) {
        None => None,
        Some((name, options)) => Some(
            match resolve(names, name) {
                Err(error) => (PhaseView::Failed, ActionView::Fail(error)),
                Ok(port) => if writes(command) is Some {
                    (
                        PhaseView::ResolvingOutput { input: Some(port as usize) },
                        ActionView::Enumerate(Direction::Output),
                    )
                } else {
                    (
                        PhaseView::ConnectingInput { output: None },
                        ActionView::ConnectInput { port: port as usize, options },
                    )
                },
            },
        ),
    }
}

/// What follows the enumeration of the outputs of a command that writes.
pub open spec fn after_outputs(
    command: CommandView,
    input: Option<usize>,
    names: Seq<NameView>,
) -> Option<(PhaseView, ActionView)> {
    match writes(command) {
        None => None,
        Some(name) => match resolve(names, name) {
            Err(error) => Some((PhaseView::Failed, ActionView::Fail(error))),
            Ok(port) => match input {
                None => Some(
                    (
                        PhaseView::ConnectingOutput,
                        ActionView::ConnectOutput { port: port as usize },
                    ),
                ),
                Some(found) => match listens(command) {
                    None => None,
                    Some((_, options)) => Some(
                        (
                            PhaseView::ConnectingInput { output: Some(port as usize) },
                            ActionView::ConnectInput { port: found, options },
                        ),
                    ),
                },
            },
        },
    }
}

/// What follows a line of standard input: its bytes are sent, or the line
/// is at fault and the command fails.
pub open spec fn after_line(line: Seq<char>) -> (PhaseView, ActionView) {
    match decode_line(line) {
        Ok(bytes) => (PhaseView::Sending, ActionView::Send(bytes)),
        Err(error) => (PhaseView::Failed, ActionView::Fail(error)),
    }
}

/// The next phase and action of a session on an event, or `None` where the
/// event does not answer what the session waits for.
pub open spec fn next(session: SessionView, event: EventView) -> Option<(PhaseView, ActionView)> {
    if is_over(session.phase) {
        None
    } else if failure_of(event) is Some {
        Some((PhaseView::Failed, ActionView::Fail(failure_of(event)->0)))
    } else {
        match (session.phase, event) {
            (PhaseView::Listing(direction), EventView::Ports(names)) => Some(
                after_listing(direction, names),
            ),
            (PhaseView::Printing(Direction::Input), EventView::Done) => Some(
                (PhaseView::Listing(Direction::Output), ActionView::Enumerate(Direction::Output)),
            ),
            (PhaseView::Printing(Direction::Output), EventView::Done) => Some(
                (PhaseView::Finished, ActionView::Finish),
            ),
            (PhaseView::Reporting { cause }, EventView::Done) => Some(
                (PhaseView::Failed, ActionView::Fail(ErrorView::Subsystem { cause })),
            ),
            (PhaseView::ResolvingInput, EventView::Ports(names)) => after_inputs(
                session.command,
                names,
            ),
            (PhaseView::ResolvingOutput { input }, EventView::Ports(names)) => after_outputs(
                session.command,
                input,
                names,
            ),
            (PhaseView::ConnectingInput { output: Some(port) }, EventView::Done) => Some(
                (PhaseView::ConnectingOutput, ActionView::ConnectOutput { port }),
            ),
            (PhaseView::ConnectingInput { output: None }, EventView::Done) => Some(
                (PhaseView::Parked, ActionView::Park),
            ),
            (PhaseView::ConnectingOutput, EventView::Done) => Some(
                (PhaseView::Reading, ActionView::ReadLine),
            ),
            (PhaseView::Reading, EventView::Line(line)) => Some(after_line(line)),
            (PhaseView::Reading, EventView::EndOfInput) => Some(
                if listens(session.command) is Some {
                    (PhaseView::Closing, ActionView::CloseOutput)
                } else {
                    (PhaseView::Finished, ActionView::Finish)
                },
            ),
            (PhaseView::Sending, EventView::Done) => Some(
                (PhaseView::Reading, ActionView::ReadLine),
            ),
            (PhaseView::Closing, EventView::Done) => Some((PhaseView::Parked, ActionView::Park)),
            _ => None,
        }
    }
}

/// The phase of a session after an event: the next one, or the same where
/// the event is refused.
pub open spec fn phase_after(session: SessionView, event: EventView) -> PhaseView {
    match next(session, event) {
        Some((phase, _)) => phase,
        None => session.phase,
    }
}

/// The action with which a session answers an event, or `None` where the
/// event is refused.
pub open spec fn action_after(session: SessionView, event: EventView) -> Option<ActionView> {
    match next(session, event) {
        Some((_, action)) => Some(action),
        None => None,
    }
}

/// The view of the action that [`Session::step`] hands out.
pub open spec fn handed_out(action: Option<Action>) -> Option<ActionView> {
    match action {
        Some(todo) => Some(todo@),
        None => None,
    }
}

/// The result of [`decide`] as views.
pub open spec fn decided(r: Option<(Phase, Action)>) -> Option<(PhaseView, ActionView)> {
    match r {
        Some((phase, action)) => Some((phase@, action@)),
        None => None,
    }
}

impl Command {
    /// The name of the port to listen to and the options for printing, if
    /// the command listens.
    pub fn listens(&self) -> (r: Option<(&String, Options)>)
        ensures
            match r {
                Some((name, options)) => listens(self@) == Some((name@, options)),
                None => listens(self@) is None,
            },
    {
        match self {
            Command::R { in_port_name, options } => Some((in_port_name, *options)),
            Command::Rw { in_port_name, out_port_name, options } => Some((in_port_name, *options)),
            _ => None,
        }
    }

    /// The name of the port to write to, if the command writes.
    pub fn writes(&self) -> (r: Option<&String>)
        ensures
            match r {
                Some(name) => writes(self@) == Some(name@),
                None => writes(self@) is None,
            },
    {
        match self {
            Command::W { out_port_name } => Some(out_port_name),
            Command::Rw { in_port_name, out_port_name, options } => Some(out_port_name),
            _ => None,
        }
    }
}

impl Phase {
    /// Whether the session has ended.
    pub fn is_over(&self) -> (over: bool)
        ensures
            over == is_over(self@),
    {
        match self {
            Phase::Parked | Phase::Finished | Phase::Failed => true,
            _ => false,
        }
    }
}

/// Decides what follows the enumeration of the ports to list.
fn decide_after_listing(direction: Direction, names: &Vec<Result<String, String>>) -> (r: (
    Phase,
    Action,
))
    ensures
        (r.0@, r.1@) == after_listing(direction, names_view(names@)),
{
    let (text, failure) = listing(direction, names);
    match failure {
        Some(cause) => (Phase::Reporting { cause }, Action::Print(text)),
        None => (Phase::Printing(direction), Action::Print(text)),
    }
}

/// Decides what follows the enumeration of the inputs.
fn decide_after_inputs(command: &Command, names: &Vec<Result<String, String>>) -> (r: Option<
    (Phase, Action),
>)
    ensures
        decided(r) == after_inputs(command@, names_view(names@)),
{
    match command.listens() {
        None => None,
        Some((name, options)) => match find_port(names, name.as_str()) {
            Err(error) => Some((Phase::Failed, Action::Fail(error))),
            Ok(port) => if command.writes().is_some() {
                Some(
                    (
                        Phase::ResolvingOutput { input: Some(port) },
                        Action::Enumerate(Direction::Output),
                    ),
                )
            } else {
                Some(
                    (
                        Phase::ConnectingInput { output: None },
                        Action::ConnectInput { port, options },
                    ),
                )
            },
        },
    }
}

/// Decides what follows the enumeration of the outputs.
fn decide_after_outputs(
    command: &Command,
    input: Option<usize>,
    names: &Vec<Result<String, String>>,
) -> (r: Option<(Phase, Action)>)
    ensures
        decided(r) == after_outputs(command@, input, names_view(names@)),
{
    match command.writes() {
        None => None,
        Some(name) => match find_port(names, name.as_str()) {
            Err(error) => Some((Phase::Failed, Action::Fail(error))),
            Ok(port) => match input {
                None => Some((Phase::ConnectingOutput, Action::ConnectOutput { port })),
                Some(found) => match command.listens() {
                    None => None,
                    Some((_, options)) => Some(
                        (
                            Phase::ConnectingInput { output: Some(port) },
                            Action::ConnectInput { port: found, options },
                        ),
                    ),
                },
            },
        },
    }
}

/// Decides what follows a line of standard input.
fn decide_after_line(line: &str) -> (r: (Phase, Action))
    ensures
        (r.0@, r.1@) == after_line(line@),
{
    match decode(line) {
        Ok(bytes) => (Phase::Sending, Action::Send(bytes)),
        Err(error) => (Phase::Failed, Action::Fail(error)),
    }
}

/// The next phase and action of a command in `phase` on `event`, or `None`
/// where the event does not answer what the phase waits for.
pub fn decide(command: &Command, phase: &Phase, event: Event) -> (r: Option<(Phase, Action)>)
    ensures
        decided(r) == next(SessionView { command: command@, phase: phase@ }, event@),
{
    if phase.is_over() {
        return None;
    }
    match event {
        Event::SubsystemFailed(cause) => Some(
            (Phase::Failed, Action::Fail(Error::Subsystem { cause })),
        ),
        Event::IoFailed(cause) => Some((Phase::Failed, Action::Fail(Error::Io { cause }))),
        Event::Ports(names) => match phase {
            Phase::Listing(direction) => Some(decide_after_listing(*direction, &names)),
            Phase::ResolvingInput => decide_after_inputs(command, &names),
            Phase::ResolvingOutput { input } => decide_after_outputs(command, *input, &names),
            _ => None,
        },
        Event::Done => match phase {
            Phase::Printing(Direction::Input) => Some(
                (Phase::Listing(Direction::Output), Action::Enumerate(Direction::Output)),
            ),
            Phase::Printing(Direction::Output) => Some((Phase::Finished, Action::Finish)),
            Phase::Reporting { cause } => Some(
                (Phase::Failed, Action::Fail(Error::Subsystem { cause: cause.clone() })),
            ),
            Phase::ConnectingInput { output: Some(port) } => Some(
                (Phase::ConnectingOutput, Action::ConnectOutput { port: *port }),
            ),
            Phase::ConnectingInput { output: None } => Some((Phase::Parked, Action::Park)),
            Phase::ConnectingOutput => Some((Phase::Reading, Action::ReadLine)),
            Phase::Sending => Some((Phase::Reading, Action::ReadLine)),
            Phase::Closing => Some((Phase::Parked, Action::Park)),
            _ => None,
        },
        Event::Line(line) => match phase {
            Phase::Reading => Some(decide_after_line(line.as_str())),
            _ => None,
        },
        Event::EndOfInput => match phase {
            Phase::Reading => if command.listens().is_some() {
                Some((Phase::Closing, Action::CloseOutput))
            } else {
                Some((Phase::Finished, Action::Finish))
            },
            _ => None,
        },
    }
}

impl Session {
    /// Begins a command, and says what is to be done first.
    pub fn start(command: Command) -> (r: (Session, Action))
        ensures
            r.0@.command == command@,
            (r.0@.phase, r.1@) == first(command@),
    {
        let (phase, action) = match &command {
            Command::Ls => (Phase::Listing(Direction::Input), Action::Enumerate(Direction::Input)),
            Command::W { out_port_name } => (
                Phase::ResolvingOutput { input: None },
                Action::Enumerate(Direction::Output),
            ),
            _ => (Phase::ResolvingInput, Action::Enumerate(Direction::Input)),
        };
        (Session { command, phase }, action)
    }

    /// Whether the session has ended.
    pub fn is_over(&self) -> (over: bool)
        ensures
            over == is_over(self@.phase),
    {
        self.phase.is_over()
    }

    /// Takes what happened when the last action was performed, and says
    /// what is to be done next.
    ///
    /// An event that does not answer what the session waits for is refused
    /// with `None`, and leaves the session as it was.
    pub fn step(&mut self, event: Event) -> (action: Option<Action>)
        ensures
            final(self)@.command == old(self)@.command,
            final(self)@.phase == phase_after(old(self)@, event@),
            handed_out(action) == action_after(old(self)@, event@),
    {
        match decide(&self.command, &self.phase, event) {
            Some((phase, action)) => {
                self.phase = phase;
                Some(action)
            },
            None => None,
        }
    }
}

} // verus!
