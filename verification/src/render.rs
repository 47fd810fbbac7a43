//! The terminal renderer: from a message and what was rendered before it to
//! the exact text written to each stream.

use vstd::prelude::*;
use crate::message::Stream;
use crate::stamp::{format_instant, instant_text, stamp_text, stamped_if};
use crate::text::{
    blank_string, blanks, ellipsis, has_prefix, last_physical_line, last_row,
    lemma_truncated_fills_width, starts_with, trim_end, trim_trailing, truncate, truncated,
};

verus! {

/// What the renderer knows of the terminal, computed once when printing starts.
#[derive(Debug, Clone, Copy, PartialEq, Eq, Structural)]
pub struct Terminal {
    /// The width of the terminal in columns.
    pub columns: usize,
    /// Whether the terminal understands ANSI control sequences.
    pub ansi: bool,
}

/// One message on its way through the renderer.
#[derive(Debug)]
pub struct RenderState {
    /// The text of the message.
    pub text: String,
    /// The stream that the message was resolved to; `None` where it is not shown.
    pub stream: Option<Stream>,
    /// Whether the next line may overwrite this one.
    pub ephemeral: bool,
    /// Whether this message completes its terminal line.
    pub end_line: bool,
    /// Whether the line begins with the time at which the message arrived.
    pub use_timestamp: bool,
    /// When the message arrived, in milliseconds since the Unix epoch.
    pub created_at: i64,
    /// The prefix as it was when the message arrived.
    pub prefix: String,
}

/// A `RenderState` as plain values.
pub struct Item {
    pub text: Seq<char>,
    pub stream: Option<Stream>,
    pub ephemeral: bool,
    pub end_line: bool,
    pub use_timestamp: bool,
    pub created_at: i64,
    pub prefix: Seq<char>,
}

impl View for RenderState {
    type V = Item;

    open spec fn view(&self) -> Item {
        Item {
            text: self.text@,
            stream: self.stream,
            ephemeral: self.ephemeral,
            end_line: self.end_line,
            use_timestamp: self.use_timestamp,
            created_at: self.created_at,
            prefix: self.prefix@,
        }
    }
}

/// What is remembered of the last message that was rendered.
#[derive(Debug)]
pub struct Previous {
    /// The stream it went to.
    pub stream: Stream,
    /// Whether it may be overwritten.
    pub ephemeral: bool,
    /// Whether it completed its line.
    pub end_line: bool,
    /// The text that was shown for it, without control characters and fill.
    pub shown: String,
}

/// A `Previous` as plain values.
pub struct Last {
    pub stream: Stream,
    pub ephemeral: bool,
    pub end_line: bool,
    pub shown: Seq<char>,
}

impl View for Previous {
    type V = Last;

    open spec fn view(&self) -> Last {
        Last {
            stream: self.stream,
            ephemeral: self.ephemeral,
            end_line: self.end_line,
            shown: self.shown@,
        }
    }
}

impl Previous {
    /// A copy of this record.
    pub fn duplicate(&self) -> (r: Previous)
        ensures
            r@ == self@,
    {
        Previous {
            stream: self.stream,
            ephemeral: self.ephemeral,
            end_line: self.end_line,
            shown: self.shown.clone(),
        }
    }
}

/// The record behind an optional `Previous`, as plain values.
pub open spec fn last_of(prev: Option<Previous>) -> Option<Last> {
    match prev {
        Some(p) => Some(p@),
        None => None,
    }
}

/// Copies an optional record.
pub fn duplicate_previous(prev: &Option<Previous>) -> (r: Option<Previous>)
    ensures
        last_of(r) == last_of(*prev),
{
    match prev {
        Some(p) => Some(p.duplicate()),
        None => None,
    }
}

/// Text to be written to one stream, and flushed, in one piece.
#[derive(Debug)]
pub struct Write {
    /// Where the text goes.
    pub stream: Stream,
    /// The text.
    pub text: String,
}

impl View for Write {
    type V = (Stream, Seq<char>);

    open spec fn view(&self) -> (Stream, Seq<char>) {
        (self.stream, self.text@)
    }
}

/// A sequence of writes as plain values.
pub open spec fn written(ws: Seq<Write>) -> Seq<(Stream, Seq<char>)> {
    ws.map_values(|w: Write| w@)
}

/// The outcome of rendering one message.
#[derive(Debug)]
pub struct Rendered {
    /// The writes to perform, in order.
    pub writes: Vec<Write>,
    /// What to remember once the writes have succeeded.
    pub next: Option<Previous>,
}

/// The separator between prefix and text.
pub open spec fn separator() -> Seq<char> {
    seq![' ', ':', ':', ' ']
}

/// The prefix and the text as one line: the text alone where there is no
/// prefix or the text is the prefix; the prefix, a blank and the text where
/// the text brings its own `::`; else prefix, separator, text.
pub open spec fn composed(prefix: Seq<char>, text: Seq<char>) -> Seq<char> {
    if prefix.len() == 0 || prefix == text {
        text
    } else if starts_with(text, seq![':', ':']) {
        prefix + seq![' '] + text
    } else {
        prefix + separator() + text
    }
}

/// What is shown for a message: prefix and text composed, trailing white
/// space removed, behind the timestamp where one is given.
pub open spec fn display_text(
    prefix: Seq<char>,
    text: Seq<char>,
    stamp: Option<Seq<char>>,
) -> Seq<char> {
    stamped_if(stamp, trim_end(composed(prefix, text)))
}

/// Composes prefix and text and removes trailing white space.
pub fn compose(prefix: &str, text: &str) -> (r: String)
    ensures
        r@ == trim_end(composed(prefix@, text@)),
{
    proof {
        reveal_strlit("::");
        reveal_strlit(" ");
        reveal_strlit(" :: ");
        assert("::"@ =~= seq![':', ':']);
        assert(" "@ =~= seq![' ']);
        assert(" :: "@ =~= separator());
    }
    let p = String::from_str(prefix);
    let t = String::from_str(text);
    if prefix.unicode_len() == 0 || p == t {
        trim_trailing(text)
    } else if has_prefix(text, "::") {
        let mut line = p;
        line.append(" ");
        line.append(text);
        trim_trailing(line.as_str())
    } else {
        let mut line = p;
        line.append(" :: ");
        line.append(text);
        trim_trailing(line.as_str())
    }
}

/// The width left for text beside a spin suffix of `spin_len` characters: the
/// columns that the suffix leaves, and at least one.
pub open spec fn usable_width(columns: nat, spin_len: nat) -> nat {
    if columns > spin_len {
        (columns - spin_len) as nat
    } else {
        1
    }
}

/// The columns of a physical line, at least one.
pub open spec fn row_width(columns: nat) -> nat {
    if columns == 0 {
        1
    } else {
        columns
    }
}

/// The text as it appears on the line. What fits the usable width stays. A
/// longer ephemeral text is cut with an ellipsis. A longer lasting text under
/// a spinner gives its last physical line, cut likewise. A longer lasting text
/// without spinner stays whole and wraps.
pub open spec fn body_text(
    shown: Seq<char>,
    ephemeral: bool,
    spin_len: nat,
    columns: nat,
) -> Seq<char> {
    let width = usable_width(columns, spin_len);
    if shown.len() <= width {
        shown
    } else if ephemeral {
        truncated(shown, width)
    } else if spin_len > 0 {
        truncated(last_row(shown, row_width(columns)), width)
    } else {
        shown
    }
}

/// Fits a text to the line.
pub fn fit(shown: &str, ephemeral: bool, spin_len: usize, columns: usize) -> (r: String)
    ensures
        r@ == body_text(shown@, ephemeral, spin_len as nat, columns as nat),
{
    let width: usize = if columns > spin_len {
        columns - spin_len
    } else {
        1
    };
    if shown.unicode_len() <= width {
        String::from_str(shown)
    } else if ephemeral {
        truncate(shown, width)
    } else if spin_len > 0 {
        let row: usize = if columns == 0 {
            1
        } else {
            columns
        };
        let tail = last_physical_line(shown, row);
        truncate(tail.as_str(), width)
    } else {
        String::from_str(shown)
    }
}

/// How a line begins. Under a spinner: a carriage return. After nothing, or
/// after a message that ended its line: nothing. After an ephemeral message: a
/// carriage return. After any other: a newline, which completes that line.
pub open spec fn line_start(spin_len: nat, prev: Option<Last>) -> Seq<char> {
    if spin_len > 0 {
        seq!['\r']
    } else {
        match prev {
            None => Seq::empty(),
            Some(p) => if p.end_line {
                Seq::empty()
            } else if p.ephemeral {
                seq!['\r']
            } else {
                seq!['\n']
            },
        }
    }
}

fn start_of_line(spin_len: usize, prev: &Option<Previous>) -> (r: &'static str)
    ensures
        r@ == line_start(spin_len as nat, last_of(*prev)),
{
    proof {
        reveal_strlit("\r");
        reveal_strlit("\n");
        reveal_strlit("");
        assert("\r"@ =~= seq!['\r']);
        assert("\n"@ =~= seq!['\n']);
        assert(""@ =~= Seq::<char>::empty());
    }
    if spin_len > 0 {
        "\r"
    } else {
        match prev {
            None => "",
            Some(p) => if p.end_line {
                ""
            } else if p.ephemeral {
                "\r"
            } else {
                "\n"
            },
        }
    }
}

/// The control sequence that clears from the cursor to the end of the line.
pub open spec fn clear_to_end() -> Seq<char> {
    seq!['\x1b', '[', 'K']
}

/// What follows the text on its line: the clearing sequence where the
/// terminal understands it, else blanks up to the terminal's width.
pub open spec fn line_fill(ansi: bool, columns: nat, used: nat) -> Seq<char> {
    if ansi {
        clear_to_end()
    } else if used < columns {
        blanks((columns - used) as nat)
    } else {
        Seq::empty()
    }
}

/// Whether a message repeats what is on the line already: an ephemeral
/// message without spinner that does not end its line, after just such a
/// message with the same text on the same stream.
pub open spec fn is_repeat(
    stream: Stream,
    body: Seq<char>,
    ephemeral: bool,
    end_line: bool,
    spin_len: nat,
    prev: Option<Last>,
) -> bool {
    spin_len == 0 && ephemeral && !end_line && match prev {
        Some(p) => p.stream == stream && p.ephemeral && !p.end_line && p.shown == body,
        None => false,
    }
}

/// Whether the previous message left an ephemeral line on another stream.
pub open spec fn leaves_line_elsewhere(stream: Stream, prev: Option<Last>) -> bool {
    match prev {
        Some(p) => p.ephemeral && p.stream != stream,
        None => false,
    }
}

/// The line written for a message: start, text, spin suffix, fill.
pub open spec fn line_text(
    body: Seq<char>,
    spin: Seq<char>,
    prev: Option<Last>,
    term: Terminal,
) -> Seq<char> {
    line_start(spin.len(), prev) + body + spin + line_fill(
        term.ansi,
        term.columns as nat,
        body.len() + spin.len(),
    )
}

/// The writes that show `shown` on `stream`. A repeat writes nothing. Else: a
/// carriage return to the stream of an ephemeral line left elsewhere, the
/// line itself, and a newline where the message ends its line.
pub open spec fn writes_of(
    stream: Stream,
    shown: Seq<char>,
    ephemeral: bool,
    end_line: bool,
    spin: Seq<char>,
    prev: Option<Last>,
    term: Terminal,
) -> Seq<(Stream, Seq<char>)> {
    let body = body_text(shown, ephemeral, spin.len(), term.columns as nat);
    if is_repeat(stream, body, ephemeral, end_line, spin.len(), prev) {
        Seq::empty()
    } else {
        let first = if leaves_line_elsewhere(stream, prev) {
            seq![(prev.unwrap().stream, seq!['\r'])]
        } else {
            Seq::empty()
        };
        let last = if end_line {
            seq![(stream, seq!['\n'])]
        } else {
            Seq::empty()
        };
        first + seq![(stream, line_text(body, spin, prev, term))] + last
    }
}

/// What is remembered after `shown` was rendered on `stream`. A line that
/// carries a spin suffix counts as ephemeral: what follows overwrites it.
pub open spec fn next_of(
    stream: Stream,
    shown: Seq<char>,
    ephemeral: bool,
    end_line: bool,
    spin: Seq<char>,
    prev: Option<Last>,
    term: Terminal,
) -> Option<Last> {
    let body = body_text(shown, ephemeral, spin.len(), term.columns as nat);
    if is_repeat(stream, body, ephemeral, end_line, spin.len(), prev) {
        prev
    } else {
        Some(Last { stream, ephemeral: ephemeral || spin.len() > 0, end_line, shown: body })
    }
}

fn fill_line(line: &mut String, ansi: bool, columns: usize, body_len: usize, spin_len: usize)
    ensures
        final(line)@ == old(line)@ + line_fill(ansi, columns as nat, (body_len + spin_len) as nat),
{
    if ansi {
        proof {
            reveal_strlit("\x1b[K");
            assert("\x1b[K"@ =~= clear_to_end());
        }
        line.append("\x1b[K");
    } else if body_len < columns && spin_len < columns - body_len {
        let pad = blank_string(columns - body_len - spin_len);
        line.append(pad.as_str());
    } else {
        assert(final(line)@ =~= old(line)@ + Seq::<char>::empty());
    }
}

/// Renders the text `shown` on `stream` with the spin suffix `spin`, after
/// the message recorded in `prev`.
pub fn draw(
    stream: Stream,
    shown: &str,
    ephemeral: bool,
    end_line: bool,
    spin: &str,
    prev: &Option<Previous>,
    term: &Terminal,
) -> (r: Rendered)
    ensures
        written(r.writes@) == writes_of(
            stream,
            shown@,
            ephemeral,
            end_line,
            spin@,
            last_of(*prev),
            *term,
        ),
        last_of(r.next) == next_of(
            stream,
            shown@,
            ephemeral,
            end_line,
            spin@,
            last_of(*prev),
            *term,
        ),
{
    let spin_len: usize = spin.unicode_len();
    let body = fit(shown, ephemeral, spin_len, term.columns);
    let repeat = spin_len == 0 && ephemeral && !end_line && match prev {
        Some(p) => p.stream == stream && p.ephemeral && !p.end_line && p.shown == body,
        None => false,
    };
    if repeat {
        let writes: Vec<Write> = Vec::new();
        assert(written(writes@) =~= Seq::empty());
        return Rendered { writes, next: duplicate_previous(prev) };
    }
    let mut writes: Vec<Write> = Vec::new();
    proof {
        reveal_strlit("\r");
        reveal_strlit("\n");
        assert("\r"@ =~= seq!['\r']);
        assert("\n"@ =~= seq!['\n']);
    }
    match prev {
        Some(p) => {
            if p.ephemeral && p.stream != stream {
                writes.push(Write { stream: p.stream, text: String::from_str("\r") });
            }
        },
        None => {},
    }
    let ghost first = written(writes@);
    let mut line = String::from_str(start_of_line(spin_len, prev));
    line.append(body.as_str());
    line.append(spin);
    fill_line(&mut line, term.ansi, term.columns, body.unicode_len(), spin_len);
    assert(line@ == line_text(body@, spin@, last_of(*prev), *term));
    writes.push(Write { stream, text: line });
    if end_line {
        writes.push(Write { stream, text: String::from_str("\n") });
    }
    assert(written(writes@) =~= writes_of(
        stream,
        shown@,
        ephemeral,
        end_line,
        spin@,
        last_of(*prev),
        *term,
    ));
    Rendered {
        writes,
        next: Some(Previous { stream, ephemeral: ephemeral || spin_len > 0, end_line, shown: body }),
    }
}

/// The characters of an optional text.
pub open spec fn chars_of(text: Option<&str>) -> Option<Seq<char>> {
    match text {
        Some(t) => Some(t@),
        None => None,
    }
}

/// The writes that render `state` behind the timestamp `stamp`: none where
/// the message has no stream.
pub open spec fn state_writes(
    state: Item,
    stamp: Option<Seq<char>>,
    spin: Seq<char>,
    prev: Option<Last>,
    term: Terminal,
) -> Seq<(Stream, Seq<char>)> {
    match state.stream {
        None => Seq::empty(),
        Some(stream) => writes_of(
            stream,
            display_text(state.prefix, state.text, stamp),
            state.ephemeral,
            state.end_line,
            spin,
            prev,
            term,
        ),
    }
}

/// What is remembered after `state` was rendered: what was remembered before
/// where the message has no stream.
pub open spec fn state_next(
    state: Item,
    stamp: Option<Seq<char>>,
    spin: Seq<char>,
    prev: Option<Last>,
    term: Terminal,
) -> Option<Last> {
    match state.stream {
        None => prev,
        Some(stream) => next_of(
            stream,
            display_text(state.prefix, state.text, stamp),
            state.ephemeral,
            state.end_line,
            spin,
            prev,
            term,
        ),
    }
}

/// Renders `state` with the timestamp `stamp` before its text, if one is given.
pub fn render_with(
    state: &RenderState,
    stamp: Option<&str>,
    spin: &str,
    prev: &Option<Previous>,
    term: &Terminal,
) -> (r: Rendered)
    ensures
        written(r.writes@) == state_writes(state@, chars_of(stamp), spin@, last_of(*prev), *term),
        last_of(r.next) == state_next(state@, chars_of(stamp), spin@, last_of(*prev), *term),
{
    match state.stream {
        None => {
            let writes: Vec<Write> = Vec::new();
            assert(written(writes@) =~= Seq::empty());
            Rendered { writes, next: duplicate_previous(prev) }
        },
        Some(stream) => {
            let line = compose(state.prefix.as_str(), state.text.as_str());
            let shown = match stamp {
                Some(t) => stamp_text(t, line.as_str()),
                None => line,
            };
            draw(stream, shown.as_str(), state.ephemeral, state.end_line, spin, prev, term)
        },
    }
}

/// The timestamp that `state` is shown with: that of its arrival where it
/// asks for one and the instant has one.
pub open spec fn stamp_of(state: Item) -> Option<Seq<char>> {
    if state.use_timestamp {
        instant_text(state.created_at)
    } else {
        None
    }
}

/// Renders `state` with the spin suffix `spin`, after the message recorded in
/// `prev`.
pub fn render(state: &RenderState, spin: &str, prev: &Option<Previous>, term: &Terminal) -> (r:
    Rendered)
    ensures
        written(r.writes@) == state_writes(state@, stamp_of(state@), spin@, last_of(*prev), *term),
        last_of(r.next) == state_next(state@, stamp_of(state@), spin@, last_of(*prev), *term),
{
    if state.use_timestamp {
        match format_instant(state.created_at) {
            Some(t) => render_with(state, Some(t.as_str()), spin, prev, term),
            None => render_with(state, None, spin, prev, term),
        }
    } else {
        render_with(state, None, spin, prev, term)
    }
}

/// A prefix is joined to the text by one separator. With a prefix that is
/// not empty and not the text itself, the line is prefix, ` :: ` and text;
/// a text that brings its own `::` is joined by a blank, so that the
/// separator stands once.
pub proof fn lemma_prefix_composition(prefix: Seq<char>, text: Seq<char>)
    requires
        prefix.len() > 0,
        prefix != text,
    ensures
        !starts_with(text, seq![':', ':']) ==> composed(prefix, text) == prefix + separator()
            + text,
        starts_with(text, seq![':', ':']) ==> composed(prefix, text) == prefix + seq![' '] + text,
{
}

/// An ephemeral text that is longer than the usable width is shown in
/// exactly that width: its own beginning and, last, an ellipsis. Without a
/// spinner the usable width of a terminal is all of its columns.
pub proof fn lemma_ephemeral_fills_width(shown: Seq<char>, spin_len: nat, columns: nat)
    requires
        shown.len() > usable_width(columns, spin_len),
    ensures
        ({
            let width = usable_width(columns, spin_len);
            let body = body_text(shown, true, spin_len, columns);
            &&& body.len() == width
            &&& body.last() == ellipsis()
            &&& body.drop_last() == shown.take(width - 1)
        }),
        columns >= 1 ==> usable_width(columns, 0) == columns,
{
    lemma_truncated_fills_width(shown, usable_width(columns, spin_len));
}

/// A line that may be overwritten never exceeds the usable width: neither an
/// ephemeral text nor a text under a spinner.
pub proof fn lemma_line_fits(shown: Seq<char>, ephemeral: bool, spin_len: nat, columns: nat)
    requires
        ephemeral || spin_len > 0,
    ensures
        body_text(shown, ephemeral, spin_len, columns).len() <= usable_width(columns, spin_len),
{
}

} // verus!
