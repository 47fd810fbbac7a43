//! A whole session of the worker: what a sequence of events writes and logs,
//! and what holds of every session.

use vstd::prelude::*;
use crate::message::{MessageType, Stream, Target, Verbosity};
use crate::render::{
    body_text, display_text, line_fill, stamp_of, state_writes, usable_width, written, Write,
};
use crate::spinner::{elapsed_between, spin_suffix};
use crate::stamp::{instant_text, log_entry};
use crate::worker::{
    finish_step, item_for, lemma_written_concat, resolved, step, Event, InnerPrinter, Model,
    Occurrence,
};

verus! {

/// The events as plain values.
pub open spec fn occurrences(events: Seq<Event>) -> Seq<Occurrence> {
    events.map_values(|e: Event| e@)
}

/// The characters of each line.
pub open spec fn lines(log: Seq<String>) -> Seq<Seq<char>> {
    log.map_values(|l: String| l@)
}

/// An optional log entry as a sequence of entries.
pub open spec fn log_of(entry: Option<Seq<char>>) -> Seq<Seq<char>> {
    match entry {
        Some(l) => seq![l],
        None => Seq::empty(),
    }
}

/// The worker after the events, handled in order.
pub open spec fn run_model(m: Model, events: Seq<Occurrence>) -> Model
    decreases events.len(),
{
    if events.len() == 0 {
        m
    } else {
        step(run_model(m, events.drop_last()), events.last()).model
    }
}

/// What the worker writes on the events, in order.
pub open spec fn run_writes(m: Model, events: Seq<Occurrence>) -> Seq<(Stream, Seq<char>)>
    decreases events.len(),
{
    if events.len() == 0 {
        Seq::empty()
    } else {
        run_writes(m, events.drop_last()) + step(
            run_model(m, events.drop_last()),
            events.last(),
        ).writes
    }
}

/// What the worker logs on the events, in order.
pub open spec fn run_log(m: Model, events: Seq<Occurrence>) -> Seq<Seq<char>>
    decreases events.len(),
{
    if events.len() == 0 {
        Seq::empty()
    } else {
        run_log(m, events.drop_last()) + log_of(
            step(run_model(m, events.drop_last()), events.last()).log,
        )
    }
}

/// What a session wrote and logged.
#[derive(Debug)]
pub struct Session {
    /// The writes, in order.
    pub writes: Vec<Write>,
    /// The log entries, in order.
    pub log: Vec<String>,
}

impl InnerPrinter {
    /// Handles the events in order and gathers what they write and log.
    pub fn run(&mut self, events: &Vec<Event>) -> (r: Session)
        ensures
            final(self)@ == run_model(old(self)@, occurrences(events@)),
            written(r.writes@) == run_writes(old(self)@, occurrences(events@)),
            lines(r.log@) == run_log(old(self)@, occurrences(events@)),
    {
        let ghost all = occurrences(events@);
        let ghost start = self@;
        let mut writes: Vec<Write> = Vec::new();
        let mut log: Vec<String> = Vec::new();
        let mut i: usize = 0;
        proof {
            assert(all.take(0) =~= Seq::<Occurrence>::empty());
            assert(written(writes@) =~= Seq::empty());
            assert(lines(log@) =~= Seq::empty());
        }
        while i < events.len()
            invariant
                i <= events.len(),
                all == occurrences(events@),
                self@ == run_model(start, all.take(i as int)),
                written(writes@) == run_writes(start, all.take(i as int)),
                lines(log@) == run_log(start, all.take(i as int)),
            decreases events.len() - i,
        {
            let ghost done = all.take(i as int);
            let ghost next = all.take(i + 1);
            proof {
                assert(next.drop_last() =~= done);
                assert(next.last() == events@[i as int]@);
            }
            let ghost wrote = writes@;
            let ghost logged = log@;
            let mut answer = self.listen(&events[i]);
            proof {
                lemma_written_concat(wrote, answer.writes@);
            }
            writes.append(&mut answer.writes);
            match answer.log {
                Some(entry) => {
                    log.push(entry);
                    assert(lines(log@) =~= lines(logged) + seq![entry@]);
                },
                None => {
                    assert(lines(log@) =~= lines(logged) + Seq::<Seq<char>>::empty());
                },
            }
            i += 1;
        }
        proof {
            assert(all.take(i as int) =~= all);
        }
        Session { writes, log }
    }
}

/// The entry that an event adds to the log: one for a message, none for any
/// other event.
pub open spec fn entry_for(e: Occurrence) -> Seq<Seq<char>> {
    match e {
        Occurrence::Message { text, model, target, at } => seq![
            log_entry(instant_text(at), text),
        ],
        _ => Seq::empty(),
    }
}

/// The entries of all the events, in order.
pub open spec fn entries(events: Seq<Occurrence>) -> Seq<Seq<char>>
    decreases events.len(),
{
    if events.len() == 0 {
        Seq::empty()
    } else {
        entries(events.drop_last()) + entry_for(events.last())
    }
}

/// Whether the queue stays open through the events.
pub open spec fn stays_open(events: Seq<Occurrence>) -> bool {
    forall|i: int| 0 <= i < events.len() ==> !(#[trigger] events[i] is Disconnected)
}

/// Whether every event is a message.
pub open spec fn all_messages(events: Seq<Occurrence>) -> bool {
    forall|i: int| 0 <= i < events.len() ==> #[trigger] events[i] is Message
}

/// The log is complete. While the queue is open, the log holds the entry of
/// each message in the order of arrival and nothing else, whatever the mode
/// and whether or not a message is shown.
pub proof fn lemma_log_complete(m: Model, events: Seq<Occurrence>)
    requires
        m.running,
        stays_open(events),
    ensures
        run_model(m, events).running,
        run_log(m, events) == entries(events),
    decreases events.len(),
{
    if events.len() > 0 {
        let head = events.drop_last();
        assert forall|i: int| 0 <= i < head.len() implies !(#[trigger] head[i] is Disconnected) by {
            assert(head[i] == events[i]);
        }
        lemma_log_complete(m, head);
        assert(!(events[events.len() - 1] is Disconnected));
    }
}

/// A session of `n` messages logs `n` entries, the `i`-th that of the
/// `i`-th message.
pub proof fn lemma_one_entry_per_message(m: Model, events: Seq<Occurrence>)
    requires
        m.running,
        all_messages(events),
    ensures
        run_log(m, events).len() == events.len(),
        forall|i: int|
            0 <= i < events.len() ==> run_log(m, events)[i] == log_entry(
                instant_text(#[trigger] events[i]->Message_at),
                events[i]->Message_text,
            ),
    decreases events.len(),
{
    assert forall|i: int| 0 <= i < events.len() implies !(#[trigger] events[i] is Disconnected) by {
        assert(events[i] is Message);
    }
    lemma_log_complete(m, events);
    lemma_entries_of_messages(events);
}

/// The entries of a sequence of messages: one for each, in order.
pub proof fn lemma_entries_of_messages(events: Seq<Occurrence>)
    requires
        all_messages(events),
    ensures
        entries(events).len() == events.len(),
        forall|i: int|
            0 <= i < events.len() ==> entries(events)[i] == log_entry(
                instant_text(#[trigger] events[i]->Message_at),
                events[i]->Message_text,
            ),
    decreases events.len(),
{
    if events.len() > 0 {
        let head = events.drop_last();
        assert forall|i: int| 0 <= i < head.len() implies #[trigger] head[i] is Message by {
            assert(head[i] == events[i]);
        }
        lemma_entries_of_messages(head);
        assert(events.last() is Message);
        assert forall|i: int| 0 <= i < events.len() implies entries(events)[i] == log_entry(
            instant_text(#[trigger] events[i]->Message_at),
            events[i]->Message_text,
        ) by {
            if i < head.len() {
                assert(head[i] == events[i]);
            }
        }
    }
}

/// Whether a kind of message is informational, debugging or tracing.
pub open spec fn is_informational(model: MessageType) -> bool {
    model == MessageType::Info || model == MessageType::Debug || model == MessageType::Trace
}

/// In quiet mode an informational, debugging or tracing message is logged
/// and never shown: all that is written when it arrives is the last form of
/// a message that the spinner was turning on, and without such a message
/// nothing at all.
pub proof fn lemma_quiet_suppresses(
    m: Model,
    text: Seq<char>,
    model: MessageType,
    target: Target,
    at: i64,
)
    requires
        m.running,
        m.mode == Verbosity::Quiet,
        is_informational(model),
    ensures
        ({
            let o = step(m, Occurrence::Message { text, model, target, at });
            &&& o.log == Some(log_entry(instant_text(at), text))
            &&& o.writes == finish_step(m, at).writes
            &&& !(m.pending is Some && m.spinning) ==> o.writes == Seq::<
                (Stream, Seq<char>),
            >::empty()
        }),
{
    let o = step(m, Occurrence::Message { text, model, target, at });
    assert(o.writes =~= finish_step(m, at).writes);
}

/// A message whose target is `Null` is logged and never shown, in every
/// mode.
pub proof fn lemma_null_target_suppresses(
    m: Model,
    text: Seq<char>,
    model: MessageType,
    at: i64,
)
    requires
        m.running,
    ensures
        ({
            let o = step(m, Occurrence::Message { text, model, target: Target::Null, at });
            &&& o.log == Some(log_entry(instant_text(at), text))
            &&& o.writes == finish_step(m, at).writes
        }),
{
    let o = step(m, Occurrence::Message { text, model, target: Target::Null, at });
    assert(o.writes =~= finish_step(m, at).writes);
}

/// The spinner turns on a message that is left alone. After a message that
/// is shown, a timeout draws a frame on the message's stream: a carriage
/// return, the message's text as it fits beside the suffix, the suffix with
/// the first glyph and the time since the message arrived, and the fill.
/// Where the text fits, the frame holds all of it. The spinner turns from
/// then on, still on that message.
pub proof fn lemma_spinner_draws(
    m: Model,
    text: Seq<char>,
    model: MessageType,
    target: Target,
    at: i64,
    later: i64,
)
    requires
        m.running,
        resolved(model, target, m.mode) is Some,
    ensures
        ({
            let shown = step(m, Occurrence::Message { text, model, target, at }).model;
            let item = item_for(
                m.mode,
                text,
                model,
                target,
                model != MessageType::ProgEphemeral,
                m.prefix,
                at,
            );
            let spin = spin_suffix(0, elapsed_between(at, later));
            let whole = display_text(m.prefix, text, stamp_of(item));
            let body = body_text(whole, item.ephemeral, spin.len(), m.term.columns as nat);
            let o = step(shown, Occurrence::Timeout { at: later });
            &&& o.writes.len() >= 1
            &&& o.writes.last() == (
                item.stream.unwrap(),
                seq!['\r'] + body + spin + line_fill(
                    m.term.ansi,
                    m.term.columns as nat,
                    body.len() + spin.len(),
                ),
            )
            &&& whole.len() <= usable_width(m.term.columns as nat, spin.len()) ==> body == whole
            &&& o.model.spinning
            &&& o.model.pending == Some(item)
            &&& o.model.running
        }),
{
    let shown = step(m, Occurrence::Message { text, model, target, at }).model;
    let item = item_for(
        m.mode,
        text,
        model,
        target,
        model != MessageType::ProgEphemeral,
        m.prefix,
        at,
    );
    let spin = spin_suffix(0, elapsed_between(at, later));
    assert(spin.len() > 0);
    assert(shown.pending == Some(item));
    let o = step(shown, Occurrence::Timeout { at: later });
    assert(o.writes == state_writes(item, stamp_of(item), spin, shown.previous, m.term));
}

/// The prefix labels what follows. A message that arrives after a prefix
/// was set is rendered with that prefix.
pub proof fn lemma_prefix_labels_next(
    m: Model,
    prefix: Seq<char>,
    text: Seq<char>,
    model: MessageType,
    target: Target,
    at: i64,
)
    requires
        m.running,
    ensures
        ({
            let labelled = step(m, Occurrence::Prefix { text: prefix });
            let item = item_for(
                m.mode,
                text,
                model,
                target,
                model != MessageType::ProgEphemeral,
                prefix,
                at,
            );
            let ended = finish_step(m, at);
            let o = step(labelled.model, Occurrence::Message { text, model, target, at });
            &&& labelled.writes == Seq::<(Stream, Seq<char>)>::empty()
            &&& labelled.log is None
            &&& o.writes == ended.writes + state_writes(
                item,
                stamp_of(item),
                Seq::empty(),
                ended.model.previous,
                m.term,
            )
        }),
{
}

/// A worker that has stopped stays stopped: whatever comes after the end of
/// the queue writes nothing, logs nothing and changes nothing.
pub proof fn lemma_stopped_is_final(m: Model, e: Occurrence)
    requires
        m.running,
    ensures
        ({
            let stopped = step(m, Occurrence::Disconnected).model;
            let o = step(stopped, e);
            &&& !stopped.running
            &&& o.model == stopped
            &&& o.writes == Seq::<(Stream, Seq<char>)>::empty()
            &&& o.log is None
        }),
{
}

} // verus!
