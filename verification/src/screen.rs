//! A terminal as the renderer sees it: the lines that were committed, the
//! line under the cursor, and what the control characters do to them. It
//! is ghost code throughout: it says what stays visible of what was written.

use vstd::prelude::*;
use crate::message::Stream;
use crate::render::{
    body_text, clear_to_end, is_repeat, line_fill, line_start, line_text, row_width,
    usable_width, writes_of, Last, Terminal,
};
use crate::spinner::{glyph, seconds_text, spin_suffix};
use crate::text::{blanks, decimal, ellipsis, last_row, truncated};

verus! {

/// The state of a terminal.
pub struct Screen {
    /// The lines that were completed by a newline, oldest first.
    pub rows: Seq<Seq<char>>,
    /// The line under the cursor.
    pub line: Seq<char>,
    /// The column of the cursor.
    pub col: nat,
    /// How far a control sequence has been read: 0 outside of one, 1 after
    /// the escape character, 2 after the bracket that follows it.
    pub esc: nat,
}

/// Whether `c` is a character that is put on the line: neither escape,
/// carriage return nor newline.
pub open spec fn is_plain_char(c: char) -> bool {
    c != '\x1b' && c != '\r' && c != '\n'
}

/// Whether `t` consists of characters that are put on the line.
pub open spec fn is_plain(t: Seq<char>) -> bool {
    forall|i: int| 0 <= i < t.len() ==> is_plain_char(#[trigger] t[i])
}

/// The line after `t` was typed over it from column `col` on.
pub open spec fn typed(line: Seq<char>, col: nat, t: Seq<char>) -> Seq<char> {
    let head = if col <= line.len() {
        line.take(col as int)
    } else {
        line + blanks((col - line.len()) as nat)
    };
    let tail = if col + t.len() < line.len() {
        line.skip((col + t.len()) as int)
    } else {
        Seq::empty()
    };
    head + t + tail
}

/// The line cut at the cursor.
pub open spec fn cleared(line: Seq<char>, col: nat) -> Seq<char> {
    if col < line.len() {
        line.take(col as int)
    } else {
        line
    }
}

/// What one character does to the terminal.
pub open spec fn put(s: Screen, c: char) -> Screen {
    if s.esc == 1 {
        Screen {
            rows: s.rows,
            line: s.line,
            col: s.col,
            esc: if c == '[' {
                2
            } else {
                0
            },
        }
    } else if s.esc == 2 {
        if c == 'K' {
            Screen { rows: s.rows, line: cleared(s.line, s.col), col: s.col, esc: 0 }
        } else if c == '?' || c == ';' || ('0' <= c && c <= '9') {
            s
        } else {
            Screen { rows: s.rows, line: s.line, col: s.col, esc: 0 }
        }
    } else if c == '\x1b' {
        Screen { rows: s.rows, line: s.line, col: s.col, esc: 1 }
    } else if c == '\r' {
        Screen { rows: s.rows, line: s.line, col: 0, esc: 0 }
    } else if c == '\n' {
        Screen { rows: s.rows.push(s.line), line: Seq::empty(), col: 0, esc: 0 }
    } else {
        Screen { rows: s.rows, line: typed(s.line, s.col, seq![c]), col: s.col + 1, esc: 0 }
    }
}

/// What a text does to the terminal, character by character.
pub open spec fn feed(s: Screen, t: Seq<char>) -> Screen
    decreases t.len(),
{
    if t.len() == 0 {
        s
    } else {
        put(feed(s, t.drop_last()), t.last())
    }
}

/// What the writes to one terminal do to it, in order.
pub open spec fn show(s: Screen, writes: Seq<(Stream, Seq<char>)>) -> Screen
    decreases writes.len(),
{
    if writes.len() == 0 {
        s
    } else {
        feed(show(s, writes.drop_last()), writes.last().1)
    }
}

/// Feeding two texts in a row is feeding them as one.
pub proof fn lemma_feed_concat(s: Screen, a: Seq<char>, b: Seq<char>)
    ensures
        feed(s, a + b) == feed(feed(s, a), b),
    decreases b.len(),
{
    if b.len() == 0 {
        assert(a + b =~= a);
    } else {
        lemma_feed_concat(s, a, b.drop_last());
        assert((a + b).drop_last() =~= a + b.drop_last());
        assert((a + b).last() == b.last());
    }
}

/// Feeding one character is putting it.
pub proof fn lemma_feed_one(s: Screen, c: char)
    ensures
        feed(s, seq![c]) == put(s, c),
{
    assert(seq![c].drop_last() =~= Seq::<char>::empty());
    assert(feed(s, seq![c].drop_last()) == s);
}

/// Plain text is typed over the line from the cursor on, and the cursor
/// ends behind it.
pub proof fn lemma_feed_plain(s: Screen, t: Seq<char>)
    requires
        s.esc == 0,
        s.col <= s.line.len(),
        is_plain(t),
    ensures
        feed(s, t) == (Screen {
            rows: s.rows,
            line: typed(s.line, s.col, t),
            col: s.col + t.len(),
            esc: 0,
        }),
    decreases t.len(),
{
    if t.len() == 0 {
        assert(typed(s.line, s.col, t) =~= s.line);
    } else {
        let head = t.drop_last();
        lemma_feed_plain(s, head);
        let mid = feed(s, head);
        assert(is_plain_char(t.last()));
        assert(typed(mid.line, mid.col, seq![t.last()]) =~= typed(s.line, s.col, t));
    }
}

/// The clearing sequence cuts the line at the cursor.
pub proof fn lemma_feed_clear(s: Screen)
    requires
        s.esc == 0,
    ensures
        feed(s, clear_to_end()) == (Screen {
            rows: s.rows,
            line: cleared(s.line, s.col),
            col: s.col,
            esc: 0,
        }),
{
    let a = seq!['\x1b'];
    let b = seq!['['];
    let c = seq!['K'];
    assert(clear_to_end() =~= a + b + c);
    lemma_feed_concat(s, a + b, c);
    lemma_feed_concat(s, a, b);
    lemma_feed_one(s, '\x1b');
    lemma_feed_one(feed(s, a), '[');
    lemma_feed_one(feed(feed(s, a), b), 'K');
}

/// Blanks are plain.
pub proof fn lemma_blanks_plain(n: nat)
    ensures
        is_plain(blanks(n)),
{
}

/// What stands on a line is plain where the text it was made of is plain.
pub proof fn lemma_body_plain(shown: Seq<char>, ephemeral: bool, spin_len: nat, columns: nat)
    requires
        is_plain(shown),
    ensures
        is_plain(body_text(shown, ephemeral, spin_len, columns)),
{
    let width = usable_width(columns, spin_len);
    let per_row = row_width(columns);
    let row = last_row(shown, per_row);
    let rest = shown.len() % per_row;
    assert(0 <= rest <= shown.len()) by (nonlinear_arith)
        requires
            rest == shown.len() % per_row,
            per_row >= 1,
    ;
    assert forall|i: int| 0 <= i < row.len() implies is_plain_char(#[trigger] row[i]) by {
        assert(row[i] == shown[i + (shown.len() - rest)]);
    }
    assert(is_plain_char(ellipsis()));
    assert(is_plain(truncated(shown, width)));
    assert(is_plain(truncated(row, width)));
}

/// The blanks that follow a text of `used` characters on a terminal that
/// does not clear lines; none on one that does.
pub open spec fn padding(term: Terminal, used: nat) -> Seq<char> {
    if term.ansi {
        Seq::empty()
    } else {
        line_fill(false, term.columns as nat, used)
    }
}

/// A line that begins with a carriage return replaces what is under the
/// cursor: afterwards the line holds the text and its padding, and nothing
/// of what it held before.
pub proof fn lemma_line_replaces(s: Screen, body: Seq<char>, term: Terminal)
    requires
        s.esc == 0,
        is_plain(body),
        term.ansi || s.line.len() <= term.columns,
    ensures
        feed(s, seq!['\r'] + body + line_fill(term.ansi, term.columns as nat, body.len())) == (
        Screen {
            rows: s.rows,
            line: body + padding(term, body.len()),
            col: body.len() + padding(term, body.len()).len(),
            esc: 0,
        }),
{
    let fill = line_fill(term.ansi, term.columns as nat, body.len());
    let home = put(s, '\r');
    lemma_feed_one(s, '\r');
    lemma_feed_concat(s, seq!['\r'] + body, fill);
    lemma_feed_concat(s, seq!['\r'], body);
    lemma_feed_plain(home, body);
    let mid = feed(home, body);
    if term.ansi {
        lemma_feed_clear(mid);
        assert(cleared(mid.line, mid.col) =~= body);
        assert(body + padding(term, body.len()) =~= body);
    } else {
        lemma_blanks_plain((term.columns - body.len()) as nat);
        lemma_feed_plain(mid, fill);
        assert(typed(mid.line, mid.col, fill) =~= body + fill);
    }
}

/// An ephemeral line leaves no trace. On a terminal whose current line
/// holds an ephemeral message of `stream`, rendering the next message of
/// that stream puts its text in place of the line: the line then holds the
/// new text and its padding alone, or, where the message ends its line, that
/// is the row added last and the line is empty. Nothing else is committed. A
/// message that repeats the line leaves the terminal as it is.
pub proof fn lemma_overwrite(
    s: Screen,
    stream: Stream,
    before: Seq<char>,
    shown: Seq<char>,
    ephemeral: bool,
    end_line: bool,
    term: Terminal,
)
    requires
        s.esc == 0,
        is_plain(shown),
        term.ansi || s.line.len() <= term.columns,
    ensures
        ({
            let prev = Some(Last { stream, ephemeral: true, end_line: false, shown: before });
            let body = body_text(shown, ephemeral, 0, term.columns as nat);
            let after = show(
                s,
                writes_of(stream, shown, ephemeral, end_line, Seq::empty(), prev, term),
            );
            let line = body + padding(term, body.len());
            if is_repeat(stream, body, ephemeral, end_line, 0, prev) {
                after == s && before == body
            } else if end_line {
                after.rows == s.rows.push(line) && after.line == Seq::<char>::empty()
            } else {
                after.rows == s.rows && after.line == line
            }
        }),
{
    let prev = Some(Last { stream, ephemeral: true, end_line: false, shown: before });
    let spin = Seq::<char>::empty();
    let body = body_text(shown, ephemeral, 0, term.columns as nat);
    let ws = writes_of(stream, shown, ephemeral, end_line, spin, prev, term);
    lemma_body_plain(shown, ephemeral, 0, term.columns as nat);
    if is_repeat(stream, body, ephemeral, end_line, 0, prev) {
        assert(ws =~= Seq::empty());
    } else {
        let text = line_text(body, spin, prev, term);
        assert(line_start(0, prev) == seq!['\r']);
        assert(text =~= seq!['\r'] + body + line_fill(
            term.ansi,
            term.columns as nat,
            body.len(),
        ));
        lemma_line_replaces(s, body, term);
        let drawn = feed(s, text);
        if end_line {
            let one = seq![(stream, text)];
            assert(ws =~= one.push((stream, seq!['\n'])));
            assert(ws.drop_last() =~= one);
            assert(one.drop_last() =~= Seq::empty());
            assert(show(s, one.drop_last()) == s);
            assert(show(s, one) == drawn);
            lemma_feed_one(drawn, '\n');
        } else {
            let one = seq![(stream, text)];
            assert(ws =~= one);
            assert(one.drop_last() =~= Seq::empty());
            assert(show(s, one.drop_last()) == s);
        }
    }
}

/// Decimal digits are plain.
pub proof fn lemma_decimal_plain(n: nat)
    ensures
        is_plain(decimal(n)),
    decreases n,
{
    if n >= 10 {
        lemma_decimal_plain(n / 10);
    }
}

/// The suffix of a spinner's frame is plain.
pub proof fn lemma_suffix_plain(cycle: nat, millis: nat)
    ensures
        is_plain(spin_suffix(cycle, millis)),
{
    lemma_decimal_plain(millis / 1000);
    assert(is_plain(seconds_text(millis)));
    assert(is_plain_char(glyph(cycle)));
}

/// An ephemeral line stays within the terminal. On a terminal that pads its
/// lines, where the line under the cursor is no wider than the terminal and
/// a line that starts with nothing finds the cursor at the start, an
/// ephemeral message with a spin suffix shorter than the terminal is wide
/// leaves a line no wider than the terminal, and no control sequence open.
pub proof fn lemma_ephemeral_line_fits(
    s: Screen,
    shown: Seq<char>,
    spin: Seq<char>,
    prev: Option<Last>,
    term: Terminal,
)
    requires
        s.esc == 0,
        !term.ansi,
        s.line.len() <= term.columns,
        line_start(spin.len(), prev).len() == 0 ==> s.col == 0,
        is_plain(shown),
        is_plain(spin),
        spin.len() < term.columns,
    ensures
        ({
            let body = body_text(shown, true, spin.len(), term.columns as nat);
            let after = feed(s, line_text(body, spin, prev, term));
            after.esc == 0 && after.line.len() <= term.columns
        }),
{
    let columns = term.columns as nat;
    let body = body_text(shown, true, spin.len(), columns);
    let start = line_start(spin.len(), prev);
    let fill = line_fill(false, columns, body.len() + spin.len());
    let rest = body + spin + fill;
    lemma_body_plain(shown, true, spin.len(), columns);
    if body.len() + spin.len() < columns {
        lemma_blanks_plain((columns - (body.len() + spin.len())) as nat);
    }
    assert(is_plain(rest));
    assert(rest.len() <= columns);
    assert(line_text(body, spin, prev, term) =~= start + rest);
    lemma_feed_concat(s, start, rest);
    let home = feed(s, start);
    if start.len() == 0 {
        assert(home == s);
    } else {
        assert(start =~= seq![start[0]]);
        lemma_feed_one(s, start[0]);
    }
    assert(home.esc == 0 && home.col == 0 && home.line.len() <= columns);
    lemma_feed_plain(home, rest);
}

} // verus!
