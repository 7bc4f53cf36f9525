//! What the extension writes to the unified log.
//!
//! A log entry is handed to the OS as a C string, which ends at its first NUL. A NUL inside a
//! message is therefore replaced rather than allowed to cut the message short.

use vstd::prelude::*;

verus! {

/// The subsystem under which everything is logged.
pub const LOG_SUBSYSTEM: &'static str = "com.digiexam.macos.NetworkExtensions";

/// The category of lifecycle events.
pub const LOG_CATEGORY_LIFECYCLE: &'static str = "lifecycle";

/// The category of flow lines.
pub const LOG_CATEGORY_FLOW: &'static str = "flow";

/// One entry for the unified log.
#[derive(Debug, PartialEq, Eq)]
pub struct LogEntry {
    pub category: &'static str,
    /// What the unified log is handed.
    pub text: String,
    /// The message as it was given, for standard error.
    pub echo: String,
}

/// A character as it is logged: a NUL becomes the replacement character.
pub open spec fn logged_char(c: char) -> char {
    if c == '\0' {
        '\u{fffd}'
    } else {
        c
    }
}

/// A message as it is logged.
pub open spec fn logged_text(msg: Seq<char>) -> Seq<char> {
    Seq::new(msg.len(), |i: int| logged_char(msg[i]))
}

impl LogEntry {
    /// The entry can be handed over as a C string without losing anything.
    pub open spec fn is_whole(self) -> bool {
        forall|i: int| 0 <= i < self.text@.len() ==> self.text@[i] != '\0'
    }

    /// The entry logs `msg` under `category`.
    pub open spec fn logs(self, category: Seq<char>, msg: Seq<char>) -> bool {
        &&& self.category@ == category
        &&& self.text@ == logged_text(msg)
        &&& self.echo@ == msg
    }
}

/// The entry for `msg` under `category`, with every NUL replaced.
pub fn emit(category: &'static str, msg: &str) -> (entry: LogEntry)
    ensures
        entry.logs(category@, msg@),
        entry.is_whole(),
{
    let mut text = String::new();
    for c in it: msg.chars()
        invariant
            it.seq() == msg@,
            text@ == logged_text(msg@).take(it.index() as int),
    {
        let shown = if c == '\0' {
            '\u{fffd}'
        } else {
            c
        };
        text.push(shown);
    }
    assert(text@ =~= logged_text(msg@));
    LogEntry { category, text, echo: msg.to_owned() }
}

/// The entry for a lifecycle event: start, stop, a rule load.
pub fn lifecycle(msg: &str) -> (entry: LogEntry)
    ensures
        entry.logs(LOG_CATEGORY_LIFECYCLE@, msg@),
        entry.is_whole(),
{
    emit(LOG_CATEGORY_LIFECYCLE, msg)
}

/// The entry for one flow's line.
pub fn flow(line: &str) -> (entry: LogEntry)
    ensures
        entry.logs(LOG_CATEGORY_FLOW@, line@),
        entry.is_whole(),
{
    emit(LOG_CATEGORY_FLOW, line)
}

} // verus!
