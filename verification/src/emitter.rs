//! The message-composition layer: which kind of message a call makes in each
//! verbosity mode, and where it asks to be shown.

use vstd::prelude::*;
use crate::message::{Message, MessageType, Target, Verbosity};

verus! {

/// Where a verbose message asks to go: nowhere in the quiet and brief modes,
/// else to stderr.
pub open spec fn verbose_target(mode: Verbosity) -> Target {
    match mode {
        Verbosity::Quiet | Verbosity::Brief => Target::Null,
        _ => Target::Stderr,
    }
}

/// Where a debug or trace message asks to go: to stderr in trace mode, else
/// nowhere.
pub open spec fn trace_target(mode: Verbosity) -> Target {
    match mode {
        Verbosity::Trace => Target::Stderr,
        _ => Target::Null,
    }
}

/// Where a progress message asks to go: nowhere in quiet mode, else to
/// stderr.
pub open spec fn progress_target(mode: Verbosity) -> Target {
    match mode {
        Verbosity::Quiet => Target::Null,
        _ => Target::Stderr,
    }
}

/// Whether a progress message stays on the terminal: never in quiet mode,
/// always in the verbose and trace modes, and in brief mode where the caller
/// asked for it.
pub open spec fn progress_stays(mode: Verbosity, permanent: Option<bool>) -> bool {
    match mode {
        Verbosity::Quiet => false,
        Verbosity::Brief => permanent == Some(true),
        _ => true,
    }
}

/// Where a result asks to go: nowhere in quiet mode, else to stdout.
pub open spec fn message_target(mode: Verbosity) -> Target {
    match mode {
        Verbosity::Quiet => Target::Null,
        _ => Target::Stdout,
    }
}

/// The length of `s` without the `c`s at its end.
pub open spec fn stripped_len(s: Seq<char>, c: char) -> nat
    decreases s.len(),
{
    if s.len() > 0 && s.last() == c {
        stripped_len(s.drop_last(), c)
    } else {
        s.len()
    }
}

/// `s` without the `c`s at its end.
pub open spec fn strip_trailing(s: Seq<char>, c: char) -> Seq<char> {
    s.take(stripped_len(s, c) as int)
}

/// Removes every `c` at the end of `s`.
pub fn without_trailing(s: &str, c: char) -> (r: String)
    ensures
        r@ == strip_trailing(s@, c),
{
    let mut n: usize = s.unicode_len();
    proof {
        assert(s@.take(n as int) =~= s@);
    }
    while n > 0 && s.get_char(n - 1) == c
        invariant
            n <= s@.len(),
            stripped_len(s@, c) == stripped_len(s@.take(n as int), c),
        decreases n,
    {
        proof {
            assert(s@.take(n as int).drop_last() =~= s@.take(n - 1));
        }
        n -= 1;
    }
    proof {
        assert(s@.take(n as int).len() == n);
        if n > 0 {
            assert(s@.take(n as int).last() == s@[n - 1]);
        }
    }
    String::from_str(s.substring_char(0, n))
}

/// The closing note that names the log file.
pub open spec fn closing_note(log_filepath: Seq<char>) -> Seq<char> {
    "Full execution log at '"@ + log_filepath + seq!['\'']
}

/// The front that an application talks to: it knows the verbosity mode and
/// makes the message for each kind of call.
#[derive(Debug)]
pub struct Emitter {
    /// The filepath of the log file.
    pub log_filepath: String,
    /// The base URL for error messages, without a trailing slash.
    pub docs_base_url: String,
    /// The verbosity mode.
    pub verbosity: Verbosity,
}

impl Emitter {
    /// An emitter for the mode; the base URL loses its trailing slashes.
    pub fn new(log_filepath: String, verbosity: Verbosity, docs_base_url: &str) -> (r: Emitter)
        ensures
            r.log_filepath == log_filepath,
            r.verbosity == verbosity,
            r.docs_base_url@ == strip_trailing(docs_base_url@, '/'),
    {
        Emitter { log_filepath, docs_base_url: without_trailing(docs_base_url, '/'), verbosity }
    }

    /// Get the current verbosity mode of the emitter.
    pub fn get_mode(&self) -> (r: Verbosity)
        ensures
            r == self.verbosity,
    {
        self.verbosity
    }

    /// Verbose information: more than regular use needs.
    pub fn verbose(&self, text: String) -> (r: Message)
        ensures
            r.text == text,
            r.model == MessageType::Debug,
            r.target == verbose_target(self.verbosity),
    {
        let target = match self.verbosity {
            Verbosity::Quiet | Verbosity::Brief => Target::Null,
            _ => Target::Stderr,
        };
        Message { text, model: MessageType::Debug, target }
    }

    /// Debug information: what the application's developers need to see why
    /// things fail.
    pub fn debug(&self, text: String) -> (r: Message)
        ensures
            r.text == text,
            r.model == MessageType::Debug,
            r.target == trace_target(self.verbosity),
    {
        let target = match self.verbosity {
            Verbosity::Trace => Target::Stderr,
            _ => Target::Null,
        };
        Message { text, model: MessageType::Debug, target }
    }

    /// Trace information: what the system itself reports, for in-depth
    /// analysis.
    pub fn trace(&self, text: String) -> (r: Message)
        ensures
            r.text == text,
            r.model == MessageType::Trace,
            r.target == trace_target(self.verbosity),
    {
        let target = match self.verbosity {
            Verbosity::Trace => Target::Stderr,
            _ => Target::Null,
        };
        Message { text, model: MessageType::Trace, target }
    }

    /// Progress information: one of several messages on how a task is going.
    /// It is overwritten by the next line unless it stays.
    pub fn progress(&self, text: String, permanent: Option<bool>) -> (r: Message)
        ensures
            r.text == text,
            r.model == if progress_stays(self.verbosity, permanent) {
                MessageType::ProgPersistent
            } else {
                MessageType::ProgEphemeral
            },
            r.target == progress_target(self.verbosity),
    {
        let target = match self.verbosity {
            Verbosity::Quiet => Target::Null,
            _ => Target::Stderr,
        };
        let stays = match self.verbosity {
            Verbosity::Quiet => false,
            Verbosity::Brief => match permanent {
                Some(p) => p,
                None => false,
            },
            _ => true,
        };
        let model = if stays {
            MessageType::ProgPersistent
        } else {
            MessageType::ProgEphemeral
        };
        Message { text, model, target }
    }

    /// A simple message to the user: the result at the end of a sequence.
    pub fn message(&self, text: String) -> (r: Message)
        ensures
            r.text == text,
            r.model == MessageType::Info,
            r.target == message_target(self.verbosity),
    {
        let target = match self.verbosity {
            Verbosity::Quiet => Target::Null,
            _ => Target::Stdout,
        };
        Message { text, model: MessageType::Info, target }
    }

    /// The last message before printing stops: where the log is.
    pub fn finish(&self) -> (r: Message)
        ensures
            r.text@ == closing_note(self.log_filepath@),
            r.model == MessageType::Info,
            r.target == Target::Stderr,
    {
        proof {
            reveal_strlit("'");
            assert("'"@ =~= seq!['\'']);
        }
        let mut text = String::from_str("Full execution log at '");
        text.append(self.log_filepath.as_str());
        text.append("'");
        Message { text, model: MessageType::Info, target: Target::Stderr }
    }
}

/// The characters of each string.
pub open spec fn texts(values: Seq<String>) -> Seq<Seq<char>> {
    values.map_values(|s: String| s@)
}

/// The parts in a row with `sep` between each two.
pub open spec fn joined(parts: Seq<Seq<char>>, sep: Seq<char>) -> Seq<char>
    decreases parts.len(),
{
    if parts.len() == 0 {
        Seq::empty()
    } else if parts.len() == 1 {
        parts[0]
    } else {
        joined(parts.drop_last(), sep) + sep + parts.last()
    }
}

/// The values as a list in words: all but the last with commas between
/// them, then a comma, the conjunction and the last.
pub open spec fn humanized(values: Seq<Seq<char>>, conjunction: Seq<char>) -> Seq<char>
    recommends
        values.len() >= 1,
{
    joined(values.drop_last(), seq![',', ' ']) + seq![',', ' '] + conjunction + seq![' ']
        + values.last()
}

/// The conjunction that is used where none is given.
pub open spec fn conjunction_or_and(conjunction: Option<&str>) -> Seq<char> {
    match conjunction {
        Some(c) => c@,
        None => seq!['a', 'n', 'd'],
    }
}

/// Convert a collection of values into a string that lists the values.
pub fn humanize_list(values: Vec<String>, conjunction: Option<&str>) -> (r: String)
    requires
        values.len() >= 1,
    ensures
        r@ == humanized(texts(values@), conjunction_or_and(conjunction)),
{
    proof {
        reveal_strlit(", ");
        reveal_strlit(" ");
        reveal_strlit("and");
        assert(", "@ =~= seq![',', ' ']);
        assert(" "@ =~= seq![' ']);
        assert("and"@ =~= seq!['a', 'n', 'd']);
    }
    let ghost parts = texts(values@);
    let n: usize = values.len() - 1;
    let mut start = String::new();
    let mut i: usize = 0;
    proof {
        assert(parts.drop_last().take(0) =~= Seq::<Seq<char>>::empty());
    }
    while i < n
        invariant
            i <= n,
            n + 1 == values.len(),
            parts == texts(values@),
            start@ == joined(parts.drop_last().take(i as int), seq![',', ' ']),
            ", "@ == seq![',', ' '],
        decreases n - i,
    {
        let ghost head = parts.drop_last().take(i + 1);
        proof {
            assert(head.drop_last() =~= parts.drop_last().take(i as int));
            assert(head.last() == values@[i as int]@);
        }
        if i > 0 {
            start.append(", ");
        } else {
            assert(head.len() == 1);
        }
        start.append(values[i].as_str());
        i += 1;
    }
    proof {
        assert(parts.drop_last().take(n as int) =~= parts.drop_last());
        assert(parts.last() == values@[n as int]@);
    }
    let word = match conjunction {
        Some(c) => c,
        None => "and",
    };
    start.append(", ");
    start.append(word);
    start.append(" ");
    start.append(values[n].as_str());
    start
}

} // verus!
