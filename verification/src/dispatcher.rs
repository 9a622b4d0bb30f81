//! The command dispatcher: the top-level routing decision of the control
//! loop.
//!
//! Each line taken from the input bus is trimmed and matched against the two
//! reserved keywords, `stop` and `backup` (case-sensitive, exact match after
//! the trim).  Everything else is forwarded to the supervised process
//! exactly as it arrived, with one trailing newline: a line that already
//! ends in a newline is passed through verbatim, one without gets a single
//! newline appended, and no reserved-keyword transformation ever touches a
//! forwarded line.

use vstd::prelude::*;

verus! {

/// The whitespace the dispatcher strips before matching keywords: blank,
/// tab and the two line terminators.
pub open spec fn is_ws(c: char) -> bool {
    c == ' ' || c == '\t' || c == '\n' || c == '\r'
}

/// The sequence with its leading whitespace removed.
pub open spec fn trim_front(s: Seq<char>) -> Seq<char>
    decreases s.len(),
{
    if s.len() > 0 && is_ws(s[0]) {
        trim_front(s.drop_first())
    } else {
        s
    }
}

/// The sequence with its trailing whitespace removed.
pub open spec fn trim_back(s: Seq<char>) -> Seq<char>
    decreases s.len(),
{
    if s.len() > 0 && is_ws(s.last()) {
        trim_back(s.drop_last())
    } else {
        s
    }
}

/// The sequence with whitespace removed from both ends.
pub open spec fn trimmed(s: Seq<char>) -> Seq<char> {
    trim_back(trim_front(s))
}

/// The line as it goes to the process's stdin: unchanged if it already ends
/// in a newline, otherwise with a single newline appended.
pub open spec fn with_newline(s: Seq<char>) -> Seq<char> {
    if s.len() > 0 && s.last() == '\n' {
        s
    } else {
        s.push('\n')
    }
}

/// Dropping `k` leading whitespace characters is what `trim_front` does, as
/// long as nothing but whitespace comes before position `k` and `k` is the
/// first position that is not whitespace (or the end).
proof fn lemma_trim_front_is_skip(s: Seq<char>, k: int)
    requires
        0 <= k <= s.len(),
        forall|m: int| 0 <= m < k ==> is_ws(s[m]),
        k == s.len() || !is_ws(s[k]),
    ensures
        trim_front(s) == s.skip(k),
    decreases k,
{
    if k == 0 {
        assert(s.skip(0) =~= s);
    } else {
        lemma_trim_front_is_skip(s.drop_first(), k - 1);
        assert(s.drop_first().skip(k - 1) =~= s.skip(k));
    }
}

/// Keeping only the first `k` characters is what `trim_back` does, as long
/// as everything from position `k` on is whitespace and position `k - 1` is
/// not (or `k` is 0).
proof fn lemma_trim_back_is_take(s: Seq<char>, k: int)
    requires
        0 <= k <= s.len(),
        forall|m: int| k <= m < s.len() ==> is_ws(s[m]),
        k == 0 || !is_ws(s[k - 1]),
    ensures
        trim_back(s) == s.take(k),
    decreases s.len(),
{
    if k == s.len() {
        if s.len() > 0 && is_ws(s.last()) {
            assert(!is_ws(s[k - 1]));
            assert(false);
        }
        assert(s.take(k) =~= s);
    } else {
        lemma_trim_back_is_take(s.drop_last(), k);
        assert(s.drop_last().take(k) =~= s.take(k));
    }
}

/// Whether a character is dispatcher whitespace.
pub fn is_ws_char(c: char) -> (r: bool)
    ensures
        r == is_ws(c),
{
    c == ' ' || c == '\t' || c == '\n' || c == '\r'
}

/// Strips leading and trailing whitespace, as the keyword match requires.
pub fn trim_str<'a>(s: &'a str) -> (r: &'a str)
    ensures
        r@ == trimmed(s@),
{
    let len = s.unicode_len();
    let mut start: usize = 0;
    while start < len && is_ws_char(s.get_char(start))
        invariant
            len == s@.len(),
            0 <= start <= len,
            forall|m: int| 0 <= m < start ==> is_ws(s@[m]),
        decreases len - start,
    {
        start = start + 1;
    }
    let mut end: usize = len;
    while end > start && is_ws_char(s.get_char(end - 1))
        invariant
            len == s@.len(),
            start <= end <= len,
            forall|m: int| end <= m < len ==> is_ws(s@[m]),
        decreases end,
    {
        end = end - 1;
    }
    let r = s.substring_char(start, end);
    proof {
        lemma_trim_front_is_skip(s@, start as int);
        let sub = s@.skip(start as int);
        lemma_trim_back_is_take(sub, end - start);
        assert(forall|m: int| end - start <= m < sub.len() ==> is_ws(#[trigger] sub[m]));
        assert(sub.take(end - start) =~= s@.subrange(start as int, end as int));
    }
    r
}

/// What the control loop does with one line from the input bus.
#[derive(Clone, Debug)]
pub enum DispatchAction {
    /// Reserved keyword `stop`: shut the supervisor down and leave the loop.
    Stop,
    /// Reserved keyword `backup`: run the backup cycle, then start a fresh
    /// supervisor.
    Backup,
    /// Anything else: write exactly these bytes to the process's stdin.
    Forward(String),
}

/// Routes one input line.  The reserved keywords are matched against the
/// trimmed line; every other line is forwarded untransformed with exactly
/// one trailing newline.
pub fn dispatch_line(line: &str) -> (r: DispatchAction)
    ensures
        trimmed(line@) == "stop"@ ==> r is Stop,
        trimmed(line@) == "backup"@ ==> r is Backup,
        trimmed(line@) != "stop"@ && trimmed(line@) != "backup"@ ==> (r matches
            DispatchAction::Forward(s) && s@ == with_newline(line@)),
{
    proof {
        reveal_strlit("stop");
        reveal_strlit("backup");
        reveal_strlit("\n");
        assert("stop"@.len() != "backup"@.len());
    }
    let t = trim_str(line);
    let t_string = String::from_str(t);
    if t_string == String::from_str("stop") {
        DispatchAction::Stop
    } else if t_string == String::from_str("backup") {
        DispatchAction::Backup
    } else {
        let len = line.unicode_len();
        let mut payload = String::from_str(line);
        if len == 0 || line.get_char(len - 1) != '\n' {
            payload.append("\n");
            proof {
                assert(line@ + "\n"@ =~= line@.push('\n'));
            }
        }
        DispatchAction::Forward(payload)
    }
}

} // verus!
