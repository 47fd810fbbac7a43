//! The idle spinner: a message that stays without successor for longer than
//! the threshold is redrawn with a turning glyph and the time it has taken.

use vstd::prelude::*;
use crate::message::Stream;
use crate::render::{
    duplicate_previous, last_of, render, state_next, state_writes, stamp_of, written, Item,
    Previous, RenderState, Rendered, Terminal, Write,
};
use crate::text::{decimal, decimal_string, digit_char};

verus! {

/// How long a message stays without successor before the spinner starts, in
/// milliseconds.
pub const SPIN_THRESHOLD_MS: u64 = 3000;

/// The time between two frames of the spinner, in milliseconds.
pub const FRAME_DELAY_MS: u64 = 100;

/// The number of glyphs in the rotation.
pub const FRAMES: usize = 8;

/// The glyph of frame `cycle`; the rotation repeats after eight frames.
pub open spec fn glyph(cycle: nat) -> char {
    let k = cycle % 8;
    if k == 0 {
        '⠁'
    } else if k == 1 {
        '⠂'
    } else if k == 2 {
        '⠄'
    } else if k == 3 {
        '⡀'
    } else if k == 4 {
        '⢀'
    } else if k == 5 {
        '⠠'
    } else if k == 6 {
        '⠐'
    } else {
        '⠈'
    }
}

fn glyph_str(cycle: usize) -> (r: &'static str)
    ensures
        r@ == seq![glyph(cycle as nat)],
{
    proof {
        reveal_strlit("⠁");
        reveal_strlit("⠂");
        reveal_strlit("⠄");
        reveal_strlit("⡀");
        reveal_strlit("⢀");
        reveal_strlit("⠠");
        reveal_strlit("⠐");
        reveal_strlit("⠈");
    }
    let k: usize = cycle % 8;
    let r = if k == 0 {
        "⠁"
    } else if k == 1 {
        "⠂"
    } else if k == 2 {
        "⠄"
    } else if k == 3 {
        "⡀"
    } else if k == 4 {
        "⢀"
    } else if k == 5 {
        "⠠"
    } else if k == 6 {
        "⠐"
    } else {
        "⠈"
    };
    assert(r@ =~= seq![glyph(cycle as nat)]);
    r
}

/// The milliseconds from `created` to `now`; none where `now` is not later.
pub open spec fn elapsed_between(created: i64, now: i64) -> nat {
    if now > created {
        (now - created) as nat
    } else {
        0
    }
}

/// Measures the time from `created` to `now`.
pub fn elapsed(created: i64, now: i64) -> (r: u64)
    ensures
        r == elapsed_between(created, now),
{
    if now <= created {
        0
    } else if created >= 0 || now < 0 {
        (now - created) as u64
    } else {
        let below: u64 = (-(created + 1)) as u64;
        now as u64 + below + 1
    }
}

/// Seconds with one decimal, cut and not rounded: `3.5` for 3599 milliseconds.
pub open spec fn seconds_text(millis: nat) -> Seq<char> {
    decimal(millis / 1000) + seq!['.', digit_char((millis / 100) % 10)]
}

/// The suffix of frame `cycle` after `millis` milliseconds: a blank, the
/// glyph, a blank, the seconds.
pub open spec fn spin_suffix(cycle: nat, millis: nat) -> Seq<char> {
    seq![' ', glyph(cycle), ' '] + seconds_text(millis)
}

/// Writes the suffix of a frame.
pub fn suffix(cycle: usize, millis: u64) -> (r: String)
    ensures
        r@ == spin_suffix(cycle as nat, millis as nat),
{
    proof {
        reveal_strlit(" ");
        reveal_strlit(".");
        assert(" "@ =~= seq![' ']);
        assert("."@ =~= seq!['.']);
    }
    let mut r = String::from_str(" ");
    r.append(glyph_str(cycle));
    r.append(" ");
    let whole = decimal_string(millis / 1000);
    r.append(whole.as_str());
    r.append(".");
    let tenth = decimal_string((millis / 100) % 10);
    assert(tenth@ =~= seq![digit_char(((millis as nat) / 100) % 10)]);
    r.append(tenth.as_str());
    assert(r@ =~= spin_suffix(cycle as nat, millis as nat));
    r
}

/// A time span of `millis` milliseconds in words of one unit, as short as
/// `4s` or `2m`.
pub uninterp spec fn human_duration_text(millis: u64) -> Seq<char>;

/// Formats `indicatif::HumanDuration` of `millis` milliseconds in its
/// alternate form. Trusted: the result is the text that this formatting gives
/// for the span.
#[verifier::external_body]
fn human_duration(millis: u64) -> (r: String)
    ensures
        r@ == human_duration_text(millis),
{
    format!("{:#}", indicatif::HumanDuration(std::time::Duration::from_millis(millis)))
}

/// `text` with a note of the time it took.
pub open spec fn with_took_text(text: Seq<char>, took: Seq<char>) -> Seq<char> {
    text + seq![' ', '(', 't', 'o', 'o', 'k', ' '] + took + seq![')']
}

/// Appends ` (took …)` to `text`, with `took` for the time.
pub fn with_took(text: &str, took: &str) -> (r: String)
    ensures
        r@ == with_took_text(text@, took@),
{
    proof {
        reveal_strlit(" (took ");
        reveal_strlit(")");
        assert(" (took "@ =~= seq![' ', '(', 't', 'o', 'o', 'k', ' ']);
        assert(")"@ =~= seq![')']);
    }
    let mut r = String::from_str(text);
    r.append(" (took ");
    r.append(took);
    r.append(")");
    r
}

/// Appends to `text` the note that it took `millis` milliseconds.
pub fn took(text: &str, millis: u64) -> (r: String)
    ensures
        r@ == with_took_text(text@, human_duration_text(millis)),
{
    let span = human_duration(millis);
    with_took(text, span.as_str())
}

/// Where the spinner stands.
#[derive(Debug, Clone, Copy, PartialEq, Eq, Structural)]
pub enum Phase {
    /// No message is waited on.
    Idle,
    /// A message is on its line and the threshold has not passed.
    Watching,
    /// The message is being redrawn with the spinner.
    Spinning,
}

/// The spinner's state.
#[derive(Debug)]
pub struct Spinner {
    /// The message that is waited on.
    pub pending: Option<RenderState>,
    /// Whether the spinner is turning.
    pub spinning: bool,
    /// The next frame of the rotation.
    pub cycle: usize,
}

/// The last form of a message that was spun on: its text with the time it
/// took; it ends its line unless it is ephemeral.
pub open spec fn final_form(pending: Item, took: Seq<char>) -> Item {
    Item {
        text: with_took_text(pending.text, took),
        stream: pending.stream,
        ephemeral: pending.ephemeral,
        end_line: !pending.ephemeral,
        use_timestamp: pending.use_timestamp,
        created_at: pending.created_at,
        prefix: pending.prefix,
    }
}

impl Spinner {
    /// The phase of the state machine.
    pub open spec fn phase(&self) -> Phase {
        if self.pending is None {
            Phase::Idle
        } else if self.spinning {
            Phase::Spinning
        } else {
            Phase::Watching
        }
    }

    /// The frame that is drawn next.
    pub open spec fn frame_index(&self) -> nat {
        if self.spinning {
            self.cycle as nat
        } else {
            0
        }
    }

    /// An idle spinner.
    pub fn new() -> (r: Spinner)
        ensures
            r.phase() == Phase::Idle,
            r.pending is None,
            !r.spinning,
            r.cycle == 0,
    {
        Spinner { pending: None, spinning: false, cycle: 0 }
    }

    /// How long to wait for the next message, in milliseconds: the frame
    /// delay while spinning, else the threshold.
    pub fn wait_ms(&self) -> (r: u64)
        ensures
            r == if self.phase() == Phase::Spinning {
                FRAME_DELAY_MS
            } else {
                SPIN_THRESHOLD_MS
            },
    {
        if self.pending.is_some() && self.spinning {
            FRAME_DELAY_MS
        } else {
            SPIN_THRESHOLD_MS
        }
    }

    /// Takes note of the message that was just rendered. One that is shown
    /// and has not ended its line is watched; any other leaves the spinner
    /// idle.
    pub fn watch(&mut self, state: RenderState)
        ensures
            final(self).pending == if state.stream is Some && !state.end_line {
                Some(state)
            } else {
                None
            },
            !final(self).spinning,
            final(self).cycle == 0,
    {
        self.spinning = false;
        self.cycle = 0;
        if state.stream.is_some() && !state.end_line {
            self.pending = Some(state);
        } else {
            self.pending = None;
        }
    }

    /// Stops without drawing anything.
    pub fn stop(&mut self)
        ensures
            final(self).phase() == Phase::Idle,
            final(self).pending is None,
            !final(self).spinning,
            final(self).cycle == 0,
    {
        self.pending = None;
        self.spinning = false;
        self.cycle = 0;
    }

    /// The timer has run out at `now`. With a message pending, draws it with
    /// the suffix of the next frame and of the time since it arrived, and
    /// spins from then on. With none pending, nothing happens.
    pub fn frame(&mut self, now: i64, prev: &Option<Previous>, term: &Terminal) -> (r: Rendered)
        ensures
            final(self).pending == old(self).pending,
            match old(self).pending {
                None => {
                    &&& written(r.writes@) == Seq::<(Stream, Seq<char>)>::empty()
                    &&& last_of(r.next) == last_of(*prev)
                    &&& final(self).spinning == old(self).spinning
                    &&& final(self).cycle == old(self).cycle
                },
                Some(p) => {
                    let spin = spin_suffix(
                        old(self).frame_index(),
                        elapsed_between(p.created_at, now),
                    );
                    &&& written(r.writes@) == state_writes(
                        p@,
                        stamp_of(p@),
                        spin,
                        last_of(*prev),
                        *term,
                    )
                    &&& last_of(r.next) == state_next(p@, stamp_of(p@), spin, last_of(*prev), *term)
                    &&& final(self).spinning
                    &&& final(self).cycle == (old(self).frame_index() + 1) % 8
                },
            },
    {
        let index: usize = if self.spinning {
            self.cycle
        } else {
            0
        };
        let r = match &self.pending {
            None => {
                let writes: Vec<Write> = Vec::new();
                assert(written(writes@) =~= Seq::empty());
                return Rendered { writes, next: duplicate_previous(prev) };
            },
            Some(p) => {
                let spin = suffix(index, elapsed(p.created_at, now));
                render(p, spin.as_str(), prev, term)
            },
        };
        self.spinning = true;
        self.cycle = if index % 8 == 7 {
            0
        } else {
            index % 8 + 1
        };
        r
    }

    /// A new message has arrived at `now`. A message that was spun on is
    /// drawn once more in its last form, without spinner and with the time it
    /// took. Whatever the phase, the spinner is idle afterwards.
    pub fn finish(&mut self, now: i64, prev: &Option<Previous>, term: &Terminal) -> (r: Rendered)
        ensures
            final(self).phase() == Phase::Idle,
            final(self).pending is None,
            !final(self).spinning,
            final(self).cycle == 0,
            match old(self).pending {
                Some(p) if old(self).spinning => {
                    let last = final_form(
                        p@,
                        human_duration_text(elapsed_between(p.created_at, now) as u64),
                    );
                    &&& written(r.writes@) == state_writes(
                        last,
                        stamp_of(last),
                        Seq::empty(),
                        last_of(*prev),
                        *term,
                    )
                    &&& last_of(r.next) == state_next(
                        last,
                        stamp_of(last),
                        Seq::empty(),
                        last_of(*prev),
                        *term,
                    )
                },
                _ => {
                    &&& written(r.writes@) == Seq::<(Stream, Seq<char>)>::empty()
                    &&& last_of(r.next) == last_of(*prev)
                },
            },
    {
        let was_spinning = self.spinning;
        self.spinning = false;
        self.cycle = 0;
        let pending = self.pending.take();
        match pending {
            Some(p) if was_spinning => {
                let text = took(p.text.as_str(), elapsed(p.created_at, now));
                let last = RenderState {
                    text,
                    stream: p.stream,
                    ephemeral: p.ephemeral,
                    end_line: !p.ephemeral,
                    use_timestamp: p.use_timestamp,
                    created_at: p.created_at,
                    prefix: p.prefix,
                };
                proof {
                    reveal_strlit("");
                    assert(""@ =~= Seq::<char>::empty());
                }
                render(&last, "", prev, term)
            },
            _ => {
                let writes: Vec<Write> = Vec::new();
                assert(written(writes@) =~= Seq::empty());
                Rendered { writes, next: duplicate_previous(prev) }
            },
        }
    }
}

/// The time shown by the spinner never runs backwards: a later instant gives
/// no smaller a span, and the seconds shown are no fewer.
pub proof fn lemma_elapsed_monotone(created: i64, earlier: i64, later: i64)
    requires
        earlier <= later,
    ensures
        elapsed_between(created, earlier) <= elapsed_between(created, later),
        elapsed_between(created, earlier) / 100 <= elapsed_between(created, later) / 100,
{
}

} // verus!
