//! Instants as text.

use vstd::prelude::*;
use crate::text::{trim, trim_both};

verus! {

/// The text of the instant `millis` milliseconds after the Unix epoch, read in
/// UTC and written as `YYYY-MM-DD HH:MM:SS.mmm`; `None` for an instant outside
/// the years that the calendar supports.
pub uninterp spec fn instant_text(millis: i64) -> Option<Seq<char>>;

/// Calls `jiff::Timestamp::from_millisecond` and `jiff::fmt::strtime::format`
/// with the pattern `%Y-%m-%d %H:%M:%S%.3f`. Trusted: the result is the text
/// that those two give for `millis`, and `None` where either refuses.
#[verifier::external_body]
pub(crate) fn format_instant(millis: i64) -> (r: Option<String>)
    ensures
        match r {
            Some(s) => instant_text(millis) == Some(s@),
            None => instant_text(millis) is None,
        },
{
    match jiff::Timestamp::from_millisecond(millis) {
        Ok(ts) => jiff::fmt::strtime::format("%Y-%m-%d %H:%M:%S%.3f", ts).ok(),
        Err(_) => None,
    }
}

/// `text` behind a timestamp and one blank.
pub open spec fn stamped(stamp: Seq<char>, text: Seq<char>) -> Seq<char> {
    stamp + seq![' '] + text
}

/// `text` behind `stamp` where there is one, else `text` alone.
pub open spec fn stamped_if(stamp: Option<Seq<char>>, text: Seq<char>) -> Seq<char> {
    match stamp {
        Some(t) => stamped(t, text),
        None => text,
    }
}

/// Puts `stamp` and a blank before `text`.
pub fn stamp_text(stamp: &str, text: &str) -> (r: String)
    ensures
        r@ == stamped(stamp@, text@),
{
    let mut r = String::from_str(stamp);
    proof {
        reveal_strlit(" ");
        assert(" "@ =~= seq![' ']);
    }
    r.append(" ");
    r.append(text);
    r
}

/// Puts the timestamp of the instant `millis` before `text`; an instant that
/// has no timestamp leaves `text` as it is.
pub fn apply_timestamp(text: &str, millis: i64) -> (r: String)
    ensures
        r@ == stamped_if(instant_text(millis), text@),
{
    match format_instant(millis) {
        Some(s) => stamp_text(s.as_str(), text),
        None => String::from_str(text),
    }
}

/// The entry that the log holds for a message: its text without white space
/// at either end, behind the timestamp where there is one, and a newline.
pub open spec fn log_entry(stamp: Option<Seq<char>>, text: Seq<char>) -> Seq<char> {
    stamped_if(stamp, trim(text)) + seq!['\n']
}

/// Writes the log entry of `text` with the timestamp `stamp`, if one is given.
pub fn log_line_with(stamp: Option<&str>, text: &str) -> (r: String)
    ensures
        r@ == log_entry(
            match stamp {
                Some(t) => Some(t@),
                None => None,
            },
            text@,
        ),
{
    let body = trim_both(text);
    let mut r = match stamp {
        Some(t) => stamp_text(t, body.as_str()),
        None => body,
    };
    proof {
        reveal_strlit("\n");
        assert("\n"@ =~= seq!['\n']);
    }
    r.append("\n");
    r
}

/// Writes the log entry of a message that arrived at the instant `millis`.
pub fn log_line(text: &str, millis: i64) -> (r: String)
    ensures
        r@ == log_entry(instant_text(millis), text@),
{
    match format_instant(millis) {
        Some(t) => log_line_with(Some(t.as_str()), text),
        None => log_line_with(None, text),
    }
}

} // verus!
