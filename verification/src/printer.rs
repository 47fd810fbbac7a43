//! The printer as its callers hold it: it starts and stops the worker, and
//! admits messages to the queue while the worker runs.

use vstd::prelude::*;
use crate::message::{Message, Stream, Verbosity};
use crate::render::{Terminal, Write};
use crate::worker::{hide_cursor, Event, InnerPrinter, Model, Occurrence};

verus! {

/// Where a printer is in its life.
#[derive(Debug, Clone, Copy, PartialEq, Eq, Structural)]
pub enum Stage {
    /// Constructed, not yet started.
    Inert,
    /// The worker runs and the queue is open.
    Started,
    /// The worker was stopped; the printer cannot be used again.
    Stopped,
}

/// A call that the printer's stage does not allow.
#[derive(Debug, Clone, Copy, PartialEq, Eq, Structural)]
pub enum LifecycleError {
    /// `start` on a printer that was started before.
    AlreadyStarted,
    /// `send` on a printer that was never started.
    NotStarted,
    /// `send` on a printer that was stopped.
    AlreadyStopped,
}

/// What travels through the queue.
#[derive(Debug)]
pub enum Request {
    /// A message to log and render.
    Message(Message),
    /// A new prefix for the lines that follow.
    Prefix(String),
}

impl Request {
    /// The event that the worker sees when it takes this request from the
    /// queue at the instant `at`.
    pub open spec fn occurrence(self, at: i64) -> Occurrence {
        match self {
            Request::Message(message) => Occurrence::Message {
                text: message.text@,
                model: message.model,
                target: message.target,
                at,
            },
            Request::Prefix(text) => Occurrence::Prefix { text: text@ },
        }
    }

    /// Turns a request taken from the queue at the instant `at` into the
    /// worker's event.
    pub fn into_event(self, at: i64) -> (r: Event)
        ensures
            r@ == self.occurrence(at),
    {
        match self {
            Request::Message(message) => Event::Message { message, at },
            Request::Prefix(text) => Event::Prefix { text },
        }
    }
}

/// Public API for printing: the stage of the printer and the prefix that its
/// lines carry.
#[derive(Debug)]
pub struct Printer {
    /// Where the printer is in its life.
    pub stage: Stage,
    /// The prefix that was set last.
    pub prefix: String,
}

/// The stage after `stop`.
pub open spec fn stage_after_stop(stage: Stage) -> Stage {
    match stage {
        Stage::Started => Stage::Stopped,
        other => other,
    }
}

/// The error that `send` answers with in a stage, if any.
pub open spec fn send_refusal(stage: Stage) -> Option<LifecycleError> {
    match stage {
        Stage::Inert => Some(LifecycleError::NotStarted),
        Stage::Started => None,
        Stage::Stopped => Some(LifecycleError::AlreadyStopped),
    }
}

impl Printer {
    /// An inert printer without prefix.
    pub fn new() -> (r: Printer)
        ensures
            r.stage == Stage::Inert,
            r.prefix@ == Seq::<char>::empty(),
    {
        Printer { stage: Stage::Inert, prefix: String::new() }
    }

    /// Starts printing. An inert printer gives the worker for the mode and
    /// the terminal, which begins with the prefix set so far, and the write
    /// that hides the cursor. Any other printer refuses and stays as it is.
    pub fn start(&mut self, mode: Verbosity, term: Terminal) -> (r: Result<
        (InnerPrinter, Write),
        LifecycleError,
    >)
        ensures
            final(self).prefix == old(self).prefix,
            match r {
                Ok((worker, write)) => {
                    &&& old(self).stage == Stage::Inert
                    &&& final(self).stage == Stage::Started
                    &&& worker@ == (Model {
                        mode,
                        term,
                        prefix: old(self).prefix@,
                        previous: None,
                        pending: None,
                        spinning: false,
                        cycle: 0,
                        running: true,
                    })
                    &&& write@ == (Stream::Stdout, hide_cursor())
                },
                Err(e) => {
                    &&& old(self).stage != Stage::Inert
                    &&& final(self).stage == old(self).stage
                    &&& e == LifecycleError::AlreadyStarted
                },
            },
    {
        match self.stage {
            Stage::Inert => {
                self.stage = Stage::Started;
                Ok(InnerPrinter::new(mode, term, self.prefix.clone()))
            },
            _ => Err(LifecycleError::AlreadyStarted),
        }
    }

    /// Admits a message to the queue. A started printer hands it on as a
    /// request; an inert or stopped one refuses it.
    pub fn send(&self, msg: Message) -> (r: Result<Request, LifecycleError>)
        ensures
            match r {
                Ok(request) => self.stage == Stage::Started && request == Request::Message(msg),
                Err(e) => send_refusal(self.stage) == Some(e),
            },
    {
        match self.stage {
            Stage::Inert => Err(LifecycleError::NotStarted),
            Stage::Started => Ok(Request::Message(msg)),
            Stage::Stopped => Err(LifecycleError::AlreadyStopped),
        }
    }

    /// Sets the prefix. A started printer also gives the request that tells
    /// the worker; the lines of messages sent after it carry the new prefix.
    pub fn set_prefix(&mut self, text: &str) -> (r: Option<Request>)
        ensures
            final(self).stage == old(self).stage,
            final(self).prefix@ == text@,
            match r {
                Some(Request::Prefix(t)) => old(self).stage == Stage::Started && t@ == text@,
                Some(_) => false,
                None => old(self).stage != Stage::Started,
            },
    {
        self.prefix = String::from_str(text);
        match self.stage {
            Stage::Started => Some(Request::Prefix(String::from_str(text))),
            _ => None,
        }
    }

    /// Stops printing. Says whether there is a worker to end: `true` on a
    /// started printer, whose queue the caller then closes and whose worker it
    /// joins; `false` on any other, which stays as it is.
    pub fn stop(&mut self) -> (r: bool)
        ensures
            final(self).stage == stage_after_stop(old(self).stage),
            final(self).prefix == old(self).prefix,
            r == (old(self).stage == Stage::Started),
    {
        match self.stage {
            Stage::Started => {
                self.stage = Stage::Stopped;
                true
            },
            _ => false,
        }
    }
}

/// Stopping twice is stopping once: after a `stop`, another `stop` changes
/// nothing and finds no worker to end.
pub proof fn lemma_stop_idempotent(stage: Stage)
    ensures
        stage_after_stop(stage_after_stop(stage)) == stage_after_stop(stage),
        stage_after_stop(stage) != Stage::Started,
{
}

} // verus!
