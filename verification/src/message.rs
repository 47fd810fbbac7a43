//! The message model: what is said, of which kind, and where it may go.

use vstd::prelude::*;

verus! {

/// Which stream a message asks for.
#[derive(Debug, Clone, Copy, PartialEq, Eq, Structural)]
pub enum Target {
    /// Target the stdout stream.
    Stdout,
    /// Target the stderr stream.
    Stderr,
    /// Target no stream at all: the message is logged and never shown.
    Null,
}

/// An output stream of the terminal.
#[derive(Debug, Clone, Copy, PartialEq, Eq, Structural)]
pub enum Stream {
    /// Standard output.
    Stdout,
    /// Standard error.
    Stderr,
}

/// Types of message for printing.
#[non_exhaustive]
#[derive(Debug, Clone, Copy, PartialEq, Eq, Structural)]
pub enum MessageType {
    /// A persistent progress message that will remain on the console.
    ProgPersistent,
    /// An ephemeral progress message that will be overwritten by the next message.
    ProgEphemeral,
    /// A warning message.
    Warning,
    /// An error message.
    Error,
    /// A debugging info message.
    Debug,
    /// A trace info message.
    Trace,
    /// An informational message.
    Info,
}

/// Verbosity modes, from the least output to the most.
#[non_exhaustive]
#[derive(Debug, Clone, Copy, PartialEq, Eq, Structural)]
pub enum Verbosity {
    /// Quiet output. Most messages should not be output at all.
    Quiet,
    /// Brief output. Progress is ephemeral and debugging-style messages are skipped.
    Brief,
    /// Verbose mode. All messages are persistent and debugging-style messages kept.
    Verbose,
    /// Trace mode. The absolute maximum amount of information is printed.
    Trace,
}

impl Verbosity {
    /// The position of a mode in the order `Quiet < Brief < Verbose < Trace`.
    pub open spec fn rank(self) -> nat {
        match self {
            Verbosity::Quiet => 0,
            Verbosity::Brief => 1,
            Verbosity::Verbose => 2,
            Verbosity::Trace => 3,
        }
    }

    /// Whether `self` shows at least as much as `other`.
    pub fn at_least(self, other: Verbosity) -> (r: bool)
        ensures
            r == (self.rank() >= other.rank()),
    {
        let a: u8 = match self {
            Verbosity::Quiet => 0,
            Verbosity::Brief => 1,
            Verbosity::Verbose => 2,
            Verbosity::Trace => 3,
        };
        let b: u8 = match other {
            Verbosity::Quiet => 0,
            Verbosity::Brief => 1,
            Verbosity::Verbose => 2,
            Verbosity::Trace => 3,
        };
        a >= b
    }
}

/// The stream on which a message of kind `model` is shown in mode `mode`, if
/// it is shown at all.
pub open spec fn stream_for(model: MessageType, mode: Verbosity) -> Option<Stream> {
    match model {
        MessageType::ProgPersistent | MessageType::ProgEphemeral => Some(Stream::Stdout),
        MessageType::Warning | MessageType::Error => Some(Stream::Stderr),
        MessageType::Info => if mode == Verbosity::Quiet {
            None
        } else {
            Some(Stream::Stdout)
        },
        MessageType::Debug | MessageType::Trace => if mode.rank() >= Verbosity::Verbose.rank() {
            Some(Stream::Stdout)
        } else {
            None
        },
    }
}

/// A single message to be sent, and what type of message it is.
#[derive(Debug, Clone)]
pub struct Message {
    /// The message to be printed.
    pub text: String,
    /// The type of message to send.
    pub model: MessageType,
    /// Where the message should be sent.
    pub target: Target,
}

impl Message {
    /// Calculate which stream a message should go to based on its model.
    pub fn determine_stream(&self, mode: Verbosity) -> (r: Option<Stream>)
        ensures
            r == stream_for(self.model, mode),
    {
        match self.model {
            MessageType::ProgPersistent | MessageType::ProgEphemeral => Some(Stream::Stdout),
            MessageType::Warning | MessageType::Error => Some(Stream::Stderr),
            MessageType::Info => match mode {
                Verbosity::Quiet => None,
                _ => Some(Stream::Stdout),
            },
            MessageType::Debug | MessageType::Trace => if mode.at_least(Verbosity::Verbose) {
                Some(Stream::Stdout)
            } else {
                None
            },
        }
    }
}

} // verus!
