//! Log entries: what the bridge reports of a connection, and the line that is
//! printed for it.

use vstd::prelude::*;
use vstd::string::StringExecFns;

verus! {

/// The label of an entry that the bridge itself makes.
pub const SYSTEM_LABEL: &'static str = "System";

/// How a sender is called in the log.
pub const SENDER_NAME: &'static str = "Bluetooth sender";

/// How a receiver is called in the log.
pub const RECEIVER_NAME: &'static str = "PLCReceiver";

/// The pattern of the time stamp: date and time of day, to the second.
pub const STAMP_PATTERN: &'static str = "%Y-%m-%d %H:%M:%S";

/// One log entry: who speaks, and what is said. The time is added when the line
/// is written.
#[derive(Clone, Debug, PartialEq, Eq)]
pub struct Record {
    pub label: String,
    pub body: String,
}

/// What a log entry holds.
pub struct RecordView {
    pub label: Seq<char>,
    pub body: Seq<char>,
}

impl View for Record {
    type V = RecordView;

    open spec fn view(&self) -> RecordView {
        RecordView { label: self.label@, body: self.body@ }
    }
}

/// The entry for a connection called `name` that has opened.
pub open spec fn connected(name: Seq<char>) -> RecordView {
    RecordView { label: SYSTEM_LABEL@, body: name + " connected"@ }
}

/// The entry for a connection called `name` that has closed.
pub open spec fn closed(name: Seq<char>) -> RecordView {
    RecordView { label: SYSTEM_LABEL@, body: name + " closed"@ }
}

/// The entry for the message `text` that a connection called `name` has sent.
pub open spec fn said(name: Seq<char>, text: Seq<char>) -> RecordView {
    RecordView { label: name, body: text }
}

/// The printed line: the stamp and the label in square brackets, then the body.
pub open spec fn line_of(stamp: Seq<char>, record: RecordView) -> Seq<char> {
    "["@ + stamp + " "@ + record.label + "] "@ + record.body
}

/// `chrono::Local::now`, formatted with `pattern`.
///
/// Trusted, and nothing is claimed of the text: it depends on the clock and on
/// the time zone of the machine. `chrono` panics on a pattern that it cannot
/// read, so only the one pattern of this library is let in. It also panics,
/// whatever the pattern, where the clock stands before 1970 or the machine's
/// time zone data gives no offset.
#[verifier::external_body]
fn local_time(pattern: &str) -> (stamp: String)
    requires
        pattern@ == STAMP_PATTERN@,
{
    chrono::Local::now().format(pattern).to_string()
}

impl Record {
    /// The entry for a connection called `name` that has opened.
    pub fn connected(name: &str) -> (record: Record)
        ensures
            record@ == connected(name@),
    {
        let mut body = String::from_str(name);
        body.append(" connected");
        Record { label: String::from_str(SYSTEM_LABEL), body }
    }

    /// The entry for a connection called `name` that has closed.
    pub fn closed(name: &str) -> (record: Record)
        ensures
            record@ == closed(name@),
    {
        let mut body = String::from_str(name);
        body.append(" closed");
        Record { label: String::from_str(SYSTEM_LABEL), body }
    }

    /// The entry for the message `text` that a connection called `name` has sent.
    pub fn said(name: &str, text: String) -> (record: Record)
        ensures
            record@ == said(name@, text@),
    {
        Record { label: String::from_str(name), body: text }
    }

    /// The line for this entry, stamped with `stamp`.
    pub fn line(&self, stamp: &str) -> (line: String)
        ensures
            line@ == line_of(stamp@, self@),
    {
        let mut line = String::from_str("[");
        line.append(stamp);
        line.append(" ");
        line.append(self.label.as_str());
        line.append("] ");
        line.append(self.body.as_str());
        line
    }

    /// The line for this entry, stamped with the local time of this call.
    ///
    /// The stamp is read from the machine. Where its clock stands before 1970,
    /// or its time zone data gives no offset, the reading panics.
    pub fn line_now(&self) -> (line: String)
        ensures
            exists|stamp: Seq<char>| line@ == #[trigger] line_of(stamp, self@),
    {
        let stamp = local_time(STAMP_PATTERN);
        self.line(stamp.as_str())
    }
}

} // verus!
