//! The ways a command can fail. Every one of them ends the command.

use vstd::prelude::*;
use vstd::string::StringExecFns;

verus! {

/// Why a token of an input line is not a byte.
#[derive(Clone, Copy, Debug, PartialEq, Eq, Structural)]
pub enum ParseCause {
    /// The token holds a character that is no hexadecimal digit.
    InvalidDigit,
    /// The token is made of hexadecimal digits, but not of exactly two.
    WrongLength,
}

/// A fatal error of a command.
#[derive(Debug, PartialEq, Eq)]
#[allow(inconsistent_fields)]
pub enum Error {
    /// No enumerated port carries the requested name.
    PortNotFound { name: String },
    /// A token of an input line is not a two-digit hexadecimal byte.
    Parse { token: String, cause: ParseCause },
    /// The MIDI subsystem failed to enumerate, connect or send.
    Subsystem { cause: String },
    /// Standard input or standard output failed.
    Io { cause: String },
}

/// An [`Error`] with its texts as character sequences.
#[allow(inconsistent_fields)]
pub enum ErrorView {
    PortNotFound { name: Seq<char> },
    Parse { token: Seq<char>, cause: ParseCause },
    Subsystem { cause: Seq<char> },
    Io { cause: Seq<char> },
}

impl View for Error {
    type V = ErrorView;

    open spec fn view(&self) -> ErrorView {
        match self {
            Error::PortNotFound { name } => ErrorView::PortNotFound { name: name@ },
            Error::Parse { token, cause } => ErrorView::Parse { token: token@, cause: *cause },
            Error::Subsystem { cause } => ErrorView::Subsystem { cause: cause@ },
            Error::Io { cause } => ErrorView::Io { cause: cause@ },
        }
    }
}

/// The words that explain a [`ParseCause`].
pub open spec fn cause_text(cause: ParseCause) -> Seq<char> {
    match cause {
        ParseCause::InvalidDigit => "invalid digit found in token"@,
        ParseCause::WrongLength => "token is not two digits long"@,
    }
}

/// The message shown for an error.
pub open spec fn message_text(error: ErrorView) -> Seq<char> {
    match error {
        ErrorView::PortNotFound { name } => "port '"@ + name + "' not found"@,
        ErrorView::Parse { token, cause } => "parse error: '"@ + token + "': "@ + cause_text(cause),
        ErrorView::Subsystem { cause } => "MIDI error: "@ + cause,
        ErrorView::Io { cause } => "I/O error: "@ + cause,
    }
}

impl ParseCause {
    /// The words that explain this cause.
    pub fn text(&self) -> (s: &'static str)
        ensures
            s@ == cause_text(*self),
    {
        match self {
            ParseCause::InvalidDigit => "invalid digit found in token",
            ParseCause::WrongLength => "token is not two digits long",
        }
    }
}

impl Error {
    /// The message to show for this error.
    pub fn message(&self) -> (s: String)
        ensures
            s@ == message_text(self@),
    {
        match self {
            Error::PortNotFound { name } => {
                let mut s = String::from_str("port '");
                s.append(name.as_str());
                s.append("' not found");
                s
            },
            Error::Parse { token, cause } => {
                let mut s = String::from_str("parse error: '");
                s.append(token.as_str());
                s.append("': ");
                s.append(cause.text());
                s
            },
            Error::Subsystem { cause } => {
                let mut s = String::from_str("MIDI error: ");
                s.append(cause.as_str());
                s
            },
            Error::Io { cause } => {
                let mut s = String::from_str("I/O error: ");
                s.append(cause.as_str());
                s
            },
        }
    }
}

} // verus!
