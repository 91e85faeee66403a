use vstd::prelude::*;

pub mod syslog;

verus! {

/// A log line: `[{now}] [{level}] {msg}`.
pub open spec fn spec_log_line(now: Seq<char>, level: Seq<char>, msg: Seq<char>) -> Seq<char> {
    "["@ + now + "] ["@ + level + "] "@ + msg
}

/// Law: a log line is `[`, the whole time stamp, `] [`, the whole level, `] ` and the
/// whole message: its length is the sum of theirs plus six, and each part stands at
/// its place.
pub proof fn law_log_line(now: Seq<char>, level: Seq<char>, msg: Seq<char>)
    ensures
        ({
            let line = spec_log_line(now, level, msg);
            let n = now.len() as int;
            let l = level.len() as int;
            &&& line.len() == now.len() + level.len() + msg.len() + 6
            &&& line[0] == '['
            &&& line.subrange(1, 1 + n) == now
            &&& line.subrange(1 + n, 4 + n) == seq![']', ' ', '[']
            &&& line.subrange(4 + n, 4 + n + l) == level
            &&& line.subrange(4 + n + l, 6 + n + l) == seq![']', ' ']
            &&& line.subrange(line.len() - msg.len(), line.len() as int) == msg
        }),
{
    reveal_strlit("[");
    reveal_strlit("] [");
    reveal_strlit("] ");
    let line = spec_log_line(now, level, msg);
    let n = now.len() as int;
    let l = level.len() as int;
    assert("["@ =~= seq!['[']);
    assert("] ["@ =~= seq![']', ' ', '[']);
    assert("] "@ =~= seq![']', ' ']);
    let s1 = seq!['['];
    let s2 = seq![']', ' ', '['];
    let s3 = seq![']', ' '];
    assert(s1.len() == 1 && s2.len() == 3 && s3.len() == 2);
    assert(line =~= s1 + now + s2 + level + s3 + msg);
    assert(line[0] == '[');
    assert((s1 + now).len() == 1 + n);
    assert((s1 + now + s2).len() == 4 + n);
    assert((s1 + now + s2 + level).len() == 4 + n + l);
    assert((s1 + now + s2 + level + s3).len() == 6 + n + l);
    assert(line.len() == now.len() + level.len() + msg.len() + 6);
    assert(line.subrange(1, 1 + n) =~= now);
    assert(line.subrange(1 + n, 4 + n) =~= seq![']', ' ', '[']);
    assert(line.subrange(4 + n, 4 + n + l) =~= level);
    assert(line.subrange(4 + n + l, 6 + n + l) =~= seq![']', ' ']);
    assert(line.subrange(line.len() - msg.len(), line.len() as int) =~= msg);
}

/// Formats a log line from the time stamp, the level and the message.
pub fn format_log_line(now: &str, level: &str, msg: &str) -> (line: String)
    ensures
        line@ == spec_log_line(now@, level@, msg@),
        line@ == "["@ + now@ + "] ["@ + level@ + "] "@ + msg@,
{
    let mut line = String::from_str("[");
    line.append(now);
    line.append("] [");
    line.append(level);
    line.append("] ");
    line.append(msg);
    line
}

} // verus!
