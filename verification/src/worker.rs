//! The worker: the single consumer of the message queue. It takes one event
//! at a time and answers with what to write and what to log.

use vstd::prelude::*;
use crate::message::{stream_for, Message, MessageType, Stream, Target, Verbosity};
use crate::render::{
    duplicate_previous, last_of, render, state_next, state_writes, stamp_of, written, Item, Last,
    Previous, RenderState, Terminal, Write,
};
use crate::spinner::{
    elapsed_between, final_form, human_duration_text, spin_suffix, Spinner, FRAME_DELAY_MS,
    SPIN_THRESHOLD_MS,
};
use crate::stamp::{instant_text, log_entry, log_line};

verus! {

/// What the worker is told by the queue.
#[derive(Debug)]
pub enum Event {
    /// A message was received at the instant `at`.
    Message { message: Message, at: i64 },
    /// The prefix of the lines that follow was set.
    Prefix { text: String },
    /// No message came within the time that the worker was told to wait.
    Timeout { at: i64 },
    /// The queue is closed and empty.
    Disconnected,
}

/// An `Event` as plain values.
pub enum Occurrence {
    Message { text: Seq<char>, model: MessageType, target: Target, at: i64 },
    Prefix { text: Seq<char> },
    Timeout { at: i64 },
    Disconnected,
}

impl View for Event {
    type V = Occurrence;

    open spec fn view(&self) -> Occurrence {
        match *self {
            Event::Message { message, at } => Occurrence::Message {
                text: message.text@,
                model: message.model,
                target: message.target,
                at,
            },
            Event::Prefix { text } => Occurrence::Prefix { text: text@ },
            Event::Timeout { at } => Occurrence::Timeout { at },
            Event::Disconnected => Occurrence::Disconnected,
        }
    }
}

/// The worker's answer to one event.
#[derive(Debug)]
pub struct Step {
    /// The writes to perform, in order.
    pub writes: Vec<Write>,
    /// The entry to append to the log.
    pub log: Option<String>,
    /// What was remembered of the last message before this event, to be
    /// given back to `restore` where a write fails.
    pub before: Option<Previous>,
    /// Whether the worker has stopped.
    pub done: bool,
}

/// The state of the worker.
#[derive(Debug)]
pub struct InnerPrinter {
    /// Printing verbosity mode.
    pub mode: Verbosity,
    /// The terminal as it was found when printing started.
    pub term: Terminal,
    /// The prefix of every line.
    pub prefix: String,
    /// What is remembered of the last message that was rendered.
    pub previous: Option<Previous>,
    /// The idle spinner.
    pub spinner: Spinner,
    /// Whether the queue is still open.
    pub running: bool,
}

/// An `InnerPrinter` as plain values.
pub struct Model {
    pub mode: Verbosity,
    pub term: Terminal,
    pub prefix: Seq<char>,
    pub previous: Option<Last>,
    pub pending: Option<Item>,
    pub spinning: bool,
    pub cycle: nat,
    pub running: bool,
}

/// What one event does: the state after it, the writes and the log entry.
pub struct Outcome {
    pub model: Model,
    pub writes: Seq<(Stream, Seq<char>)>,
    pub log: Option<Seq<char>>,
}

/// The message behind an optional `RenderState`, as plain values.
pub open spec fn item_of(state: Option<RenderState>) -> Option<Item> {
    match state {
        Some(s) => Some(s@),
        None => None,
    }
}

impl View for InnerPrinter {
    type V = Model;

    open spec fn view(&self) -> Model {
        Model {
            mode: self.mode,
            term: self.term,
            prefix: self.prefix@,
            previous: last_of(self.previous),
            pending: item_of(self.spinner.pending),
            spinning: self.spinner.spinning,
            cycle: self.spinner.cycle as nat,
            running: self.running,
        }
    }
}

/// The sequence that hides the cursor.
pub open spec fn hide_cursor() -> Seq<char> {
    seq!['\x1b', '[', '?', '2', '5', 'l']
}

/// The sequence that shows the cursor.
pub open spec fn show_cursor() -> Seq<char> {
    seq!['\x1b', '[', '?', '2', '5', 'h']
}

/// The stream that a message goes to: none where its target is `Null`, else
/// the stream of its kind in the mode.
pub open spec fn resolved(model: MessageType, target: Target, mode: Verbosity) -> Option<Stream> {
    if target == Target::Null {
        None
    } else {
        stream_for(model, mode)
    }
}

/// A message as the renderer gets it. It is ephemeral unless `permanent`, it
/// leaves its line open, and it carries a timestamp in trace mode unless it
/// is informational.
pub open spec fn item_for(
    mode: Verbosity,
    text: Seq<char>,
    model: MessageType,
    target: Target,
    permanent: bool,
    prefix: Seq<char>,
    at: i64,
) -> Item {
    Item {
        text,
        stream: resolved(model, target, mode),
        ephemeral: !permanent,
        end_line: false,
        use_timestamp: mode == Verbosity::Trace && model != MessageType::Info,
        created_at: at,
        prefix,
    }
}

/// Rendering `item` without spinner: the writes, what is remembered, and the
/// spinner watching the message if it is shown and has left its line open.
pub open spec fn show_step(m: Model, item: Item) -> Outcome {
    Outcome {
        model: Model {
            mode: m.mode,
            term: m.term,
            prefix: m.prefix,
            previous: state_next(item, stamp_of(item), Seq::empty(), m.previous, m.term),
            pending: if item.stream is Some && !item.end_line {
                Some(item)
            } else {
                None
            },
            spinning: false,
            cycle: 0,
            running: m.running,
        },
        writes: state_writes(item, stamp_of(item), Seq::empty(), m.previous, m.term),
        log: None,
    }
}

/// Ending the spinner at the instant `at`: a message that was spun on is
/// rendered in its last form. The spinner is idle afterwards.
pub open spec fn finish_step(m: Model, at: i64) -> Outcome {
    if m.pending is Some && m.spinning {
        let p = m.pending.unwrap();
        let last = final_form(p, human_duration_text(elapsed_between(p.created_at, at) as u64));
        Outcome {
            model: Model {
                mode: m.mode,
                term: m.term,
                prefix: m.prefix,
                previous: state_next(last, stamp_of(last), Seq::empty(), m.previous, m.term),
                pending: None,
                spinning: false,
                cycle: 0,
                running: m.running,
            },
            writes: state_writes(last, stamp_of(last), Seq::empty(), m.previous, m.term),
            log: None,
        }
    } else {
        Outcome {
            model: Model {
                mode: m.mode,
                term: m.term,
                prefix: m.prefix,
                previous: m.previous,
                pending: None,
                spinning: false,
                cycle: 0,
                running: m.running,
            },
            writes: Seq::empty(),
            log: None,
        }
    }
}

/// The frame that is drawn next.
pub open spec fn frame_index(m: Model) -> nat {
    if m.spinning {
        m.cycle
    } else {
        0
    }
}

/// The suffix of the frame drawn at the instant `at` for the message `p`.
pub open spec fn frame_suffix(m: Model, p: Item, at: i64) -> Seq<char> {
    spin_suffix(frame_index(m), elapsed_between(p.created_at, at))
}

/// A timeout at the instant `at`: the pending message is drawn with the next
/// frame of the spinner; with none pending nothing happens.
pub open spec fn frame_step(m: Model, at: i64) -> Outcome {
    match m.pending {
        None => Outcome { model: m, writes: Seq::empty(), log: None },
        Some(p) => {
            let spin = frame_suffix(m, p, at);
            Outcome {
                model: Model {
                    mode: m.mode,
                    term: m.term,
                    prefix: m.prefix,
                    previous: state_next(p, stamp_of(p), spin, m.previous, m.term),
                    pending: m.pending,
                    spinning: true,
                    cycle: (frame_index(m) + 1) % 8,
                    running: m.running,
                },
                writes: state_writes(p, stamp_of(p), spin, m.previous, m.term),
                log: None,
            }
        },
    }
}

/// The newline that completes a line left open.
pub open spec fn closing_newline(previous: Option<Last>) -> Seq<(Stream, Seq<char>)> {
    match previous {
        Some(p) => if p.end_line {
            Seq::empty()
        } else {
            seq![(p.stream, seq!['\n'])]
        },
        None => Seq::empty(),
    }
}

/// The end of the queue: a line left open is completed, the cursor is shown
/// again on standard output, and the worker stops.
pub open spec fn stop_step(m: Model) -> Outcome {
    Outcome {
        model: Model {
            mode: m.mode,
            term: m.term,
            prefix: m.prefix,
            previous: None,
            pending: None,
            spinning: false,
            cycle: 0,
            running: false,
        },
        writes: closing_newline(m.previous) + seq![(Stream::Stdout, show_cursor())],
        log: None,
    }
}

/// A new prefix: it labels the lines rendered from now on, and nothing is
/// written.
pub open spec fn prefix_step(m: Model, text: Seq<char>) -> Outcome {
    Outcome {
        model: Model {
            mode: m.mode,
            term: m.term,
            prefix: text,
            previous: m.previous,
            pending: m.pending,
            spinning: m.spinning,
            cycle: m.cycle,
            running: m.running,
        },
        writes: Seq::empty(),
        log: None,
    }
}

/// A message that arrives: the spinner ends, the message is logged, and it
/// is rendered, ephemeral if it is ephemeral progress.
pub open spec fn message_step(
    m: Model,
    text: Seq<char>,
    model: MessageType,
    target: Target,
    at: i64,
) -> Outcome {
    let ended = finish_step(m, at);
    let item = item_for(
        m.mode,
        text,
        model,
        target,
        model != MessageType::ProgEphemeral,
        m.prefix,
        at,
    );
    let shown = show_step(ended.model, item);
    Outcome {
        model: shown.model,
        writes: ended.writes + shown.writes,
        log: Some(log_entry(instant_text(at), text)),
    }
}

/// What the worker does on one event. A worker that has stopped does nothing.
pub open spec fn step(m: Model, e: Occurrence) -> Outcome {
    if !m.running {
        Outcome { model: m, writes: Seq::empty(), log: None }
    } else {
        match e {
            Occurrence::Message { text, model, target, at } => message_step(
                m,
                text,
                model,
                target,
                at,
            ),
            Occurrence::Prefix { text } => prefix_step(m, text),
            Occurrence::Timeout { at } => frame_step(m, at),
            Occurrence::Disconnected => stop_step(m),
        }
    }
}

/// The characters of an optional string.
pub open spec fn entry_of(log: Option<String>) -> Option<Seq<char>> {
    match log {
        Some(s) => Some(s@),
        None => None,
    }
}

/// The writes of two renderings in a row are those of the first, then those
/// of the second.
pub proof fn lemma_written_concat(a: Seq<Write>, b: Seq<Write>)
    ensures
        written(a + b) == written(a) + written(b),
{
    assert(written(a + b) =~= written(a) + written(b));
}

impl InnerPrinter {
    /// A worker for the mode, the terminal and the prefix, and the write that
    /// hides the cursor on standard output while the worker has the terminal.
    pub fn new(mode: Verbosity, term: Terminal, prefix: String) -> (r: (InnerPrinter, Write))
        ensures
            r.0@ == (Model {
                mode,
                term,
                prefix: prefix@,
                previous: None,
                pending: None,
                spinning: false,
                cycle: 0,
                running: true,
            }),
            r.1@ == (Stream::Stdout, hide_cursor()),
    {
        proof {
            reveal_strlit("\x1b[?25l");
            assert("\x1b[?25l"@ =~= hide_cursor());
        }
        (
            InnerPrinter {
                mode,
                term,
                prefix,
                previous: None,
                spinner: Spinner::new(),
                running: true,
            },
            Write { stream: Stream::Stdout, text: String::from_str("\x1b[?25l") },
        )
    }

    /// How long to wait for the next event, in milliseconds.
    pub fn wait_ms(&self) -> (r: u64)
        ensures
            r == if self@.pending is Some && self@.spinning {
                FRAME_DELAY_MS
            } else {
                SPIN_THRESHOLD_MS
            },
    {
        self.spinner.wait_ms()
    }

    /// Renders a message, to stay where `permanent` and else to be
    /// overwritten by the next line, and lets the spinner watch it.
    pub fn progress(&mut self, message: &Message, permanent: bool, at: i64) -> (r: Vec<Write>)
        ensures
            ({
                let item = item_for(
                    old(self).mode,
                    message.text@,
                    message.model,
                    message.target,
                    permanent,
                    old(self).prefix@,
                    at,
                );
                let o = show_step(old(self)@, item);
                final(self)@ == o.model && written(r@) == o.writes
            }),
    {
        let stream = match message.target {
            Target::Null => None,
            _ => message.determine_stream(self.mode),
        };
        let stamped = match self.mode {
            Verbosity::Trace => match message.model {
                MessageType::Info => false,
                _ => true,
            },
            _ => false,
        };
        let state = RenderState {
            text: message.text.clone(),
            stream,
            ephemeral: !permanent,
            end_line: false,
            use_timestamp: stamped,
            created_at: at,
            prefix: self.prefix.clone(),
        };
        proof {
            reveal_strlit("");
            assert(""@ =~= Seq::<char>::empty());
        }
        let rendered = render(&state, "", &self.previous, &self.term);
        self.previous = rendered.next;
        self.spinner.watch(state);
        rendered.writes
    }

    /// Handles one event: a message is logged and rendered, a timeout turns
    /// the spinner, the end of the queue stops the worker.
    pub fn listen(&mut self, event: &Event) -> (r: Step)
        ensures
            final(self)@ == step(old(self)@, event@).model,
            written(r.writes@) == step(old(self)@, event@).writes,
            entry_of(r.log) == step(old(self)@, event@).log,
            last_of(r.before) == old(self)@.previous,
            r.done == !final(self).running,
    {
        let before = duplicate_previous(&self.previous);
        if !self.running {
            let writes: Vec<Write> = Vec::new();
            assert(written(writes@) =~= Seq::empty());
            return Step { writes, log: None, before, done: true };
        }
        match event {
            Event::Message { message, at } => {
                let at: i64 = *at;
                let ended = self.spinner.finish(at, &self.previous, &self.term);
                self.previous = ended.next;
                let mut writes = ended.writes;
                let ghost first = writes@;
                let permanent = match message.model {
                    MessageType::ProgEphemeral => false,
                    _ => true,
                };
                let entry = log_line(message.text.as_str(), at);
                let mut shown = self.progress(message, permanent, at);
                proof {
                    lemma_written_concat(first, shown@);
                }
                writes.append(&mut shown);
                Step { writes, log: Some(entry), before, done: false }
            },
            Event::Prefix { text } => {
                self.prefix = text.clone();
                let writes: Vec<Write> = Vec::new();
                assert(written(writes@) =~= Seq::empty());
                Step { writes, log: None, before, done: false }
            },
            Event::Timeout { at } => {
                let drawn = self.spinner.frame(*at, &self.previous, &self.term);
                self.previous = drawn.next;
                Step { writes: drawn.writes, log: None, before, done: false }
            },
            Event::Disconnected => {
                let mut writes: Vec<Write> = Vec::new();
                proof {
                    reveal_strlit("\n");
                    reveal_strlit("\x1b[?25h");
                    assert("\n"@ =~= seq!['\n']);
                    assert("\x1b[?25h"@ =~= show_cursor());
                }
                match &self.previous {
                    Some(p) => {
                        if !p.end_line {
                            writes.push(Write { stream: p.stream, text: String::from_str("\n") });
                        }
                    },
                    None => {},
                }
                writes.push(
                    Write { stream: Stream::Stdout, text: String::from_str("\x1b[?25h") },
                );
                assert(written(writes@) =~= stop_step(old(self)@).writes);
                self.previous = None;
                self.spinner.stop();
                self.running = false;
                Step { writes, log: None, before, done: true }
            },
        }
    }

    /// Takes back what a step remembered: called with the step's `before`
    /// where one of its writes failed, so that the next line begins as if the
    /// step had not been rendered.
    pub fn restore(&mut self, before: Option<Previous>)
        ensures
            final(self)@ == (Model { previous: last_of(before), ..old(self)@ }),
    {
        self.previous = before;
    }
}

} // verus!
