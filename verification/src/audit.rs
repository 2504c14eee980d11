use vstd::prelude::*;

verus! {

/// The line is a timestamp taken at write time, a separator, then the
/// message.
pub open spec fn stamped(line: Seq<char>, msg: Seq<char>) -> bool {
    exists|ts: Seq<char>| line == ts + " - "@ + msg
}

/// The audit trail grew by exactly one entry, the earlier entries are intact,
/// and the new entry is a stamped line carrying the operation's message.
pub open spec fn logged(pre: Seq<String>, post: Seq<String>, msg: Seq<char>) -> bool {
    &&& post.len() == pre.len() + 1
    &&& post.subrange(0, pre.len() as int) == pre
    &&& stamped(post.last()@, msg)
}

/// Relies on chrono::Utc::now and DateTime::timestamp_millis: the current
/// wall-clock time in milliseconds since the Unix epoch. The value depends on
/// the clock, so nothing is promised of it.
#[verifier::external_body]
pub(crate) fn now_millis() -> i64 {
    chrono::Utc::now().timestamp_millis()
}

/// Relies on chrono::Utc::now and DateTime::to_rfc3339: the current wall-clock
/// time rendered per RFC 3339. The value depends on the clock, so nothing is
/// promised of it.
#[verifier::external_body]
fn now_rfc3339() -> String {
    chrono::Utc::now().to_rfc3339()
}

/// One audit line: the current time, a separator, then the message.
pub(crate) fn stamp_line(message: &str) -> (r: String)
    ensures
        stamped(r@, message@),
        r@.len() > message@.len(),
{
    let line = now_rfc3339();
    let ghost stamp = line@;
    let mut line = line;
    line.append(" - ");
    line.append(message);
    proof {
        reveal_strlit(" - ");
        assert(line@ == stamp + " - "@ + message@);
    }
    line
}

} // verus!
