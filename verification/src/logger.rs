//! Log events as they are handed to a user interface.

use vstd::prelude::*;
use crate::text::{chars_of, string_of_range};

verus! {

/// One log event: when it happened, in milliseconds since the start of
/// 1970, its level in small letters, its message, and where it came from.
#[derive(Clone, Debug, PartialEq, Eq)]
pub struct LogEvent {
    pub timestamp: i64,
    pub level: String,
    pub message: String,
    pub target: String,
}

/// `text` without the pair of double quotes around it. A text that does not
/// both begin and end with a double quote, or that is a single character,
/// is left as it is.
pub open spec fn unquoted_text(text: Seq<char>) -> Seq<char> {
    if text.len() >= 2 && text.first() == '"' && text.last() == '"' {
        text.subrange(1, text.len() - 1)
    } else {
        text
    }
}

/// A copy of `text` without the pair of double quotes around it.
pub fn unquoted(text: &str) -> (out: String)
    ensures
        out@ == unquoted_text(text@),
{
    let chars = chars_of(text);
    let n = chars.len();
    if n >= 2 && chars[0] == '"' && chars[n - 1] == '"' {
        string_of_range(&chars, 1, n - 1)
    } else {
        String::from_str(text)
    }
}

/// Whether events from `target` are handed on: they are where the target
/// begins with the name of this program.
pub open spec fn is_forwarded_target(target: Seq<char>) -> bool {
    "patentupload"@.is_prefix_of(target)
}

/// Tells whether events from `target` are handed on.
pub fn is_forwarded(target: &str) -> (b: bool)
    ensures
        b == is_forwarded_target(target@),
{
    let chars = chars_of(target);
    let prefix = chars_of("patentupload");
    if prefix.len() > chars.len() {
        return false;
    }
    let mut i: usize = 0;
    while i < prefix.len()
        invariant
            i <= prefix.len() <= chars.len(),
            prefix@ == "patentupload"@,
            chars@ == target@,
            forall|k: int| 0 <= k < i ==> chars@[k] == prefix@[k],
        decreases prefix.len() - i,
    {
        if chars[i] != prefix[i] {
            return false;
        }
        i += 1;
    }
    assert(prefix@ =~= chars@.subrange(0, prefix@.len() as int));
    true
}

/// The lower-case form that `str::to_lowercase` gives to a text.
pub uninterp spec fn lowercase_text(s: Seq<char>) -> Seq<char>;

/// Calls `str::to_lowercase`, which returns the lower-case equivalent of
/// the text as a new string. The contract only names the result.
#[verifier::external_body]
fn to_lowercase(s: &str) -> (lower: String)
    ensures
        lower@ == lowercase_text(s@),
{
    s.to_lowercase()
}

/// Calls `chrono::Utc::now` and takes the moment in milliseconds since the
/// start of 1970. Nothing is claimed of the number: it depends on the clock.
/// `Utc::now` gives up where the clock stands before 1970.
#[verifier::external_body]
fn utc_millis() -> (millis: i64) {
    chrono::Utc::now().timestamp_millis()
}

/// Whether `event` is the log event made of the given parts: the level is
/// written in small letters, and the message, given as it prints itself for
/// debugging, has lost the double quotes around it.
pub open spec fn is_log_event_of(
    event: LogEvent,
    timestamp: i64,
    level: Seq<char>,
    debug_message: Seq<char>,
    target: Seq<char>,
) -> bool {
    &&& event.timestamp == timestamp
    &&& event.level@ == level
    &&& event.message@ == unquoted_text(debug_message)
    &&& event.target@ == target
}

/// Puts a log event together from its parts, the level already in small
/// letters.
pub fn build_log_event(timestamp: i64, level: &str, debug_message: &str, target: &str) -> (event:
    LogEvent)
    ensures
        is_log_event_of(event, timestamp, level@, debug_message@, target@),
{
    LogEvent {
        timestamp,
        level: String::from_str(level),
        message: unquoted(debug_message),
        target: String::from_str(target),
    }
}

/// The log event for something that happens now.
pub fn log_event_now(level: &str, debug_message: &str, target: &str) -> (event: LogEvent)
    ensures
        is_log_event_of(
            event,
            event.timestamp,
            lowercase_text(level@),
            debug_message@,
            target@,
        ),
{
    let timestamp = utc_millis();
    let lower = to_lowercase(level);
    build_log_event(timestamp, lower.as_str(), debug_message, target)
}

} // verus!
