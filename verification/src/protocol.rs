//! Classification of worker output: one raw event from the process handle
//! becomes exactly one [`ProtocolLine`].
//!
//! Lines on standard output are classified by a case-sensitive prefix match
//! at the start of the line: `SUCCESS|` ends an exchange with a payload,
//! `ERROR|` ends it with a worker-reported message, and anything else is a
//! log line. Lines on standard error are always diagnostic text, never
//! protocol. Process exit and an unrecoverable end of the event channel are
//! terminal events of their own.

use vstd::prelude::*;
use vstd::string::StrSliceExecFns;
use vstd::string::StringExecFns;

verus! {

/// One raw event observed on a live worker's process handle, in arrival
/// order: a line of standard output, a line of standard error, process exit
/// with an optional exit code, or the end of the event channel.
#[derive(Debug, PartialEq, Eq)]
pub enum WorkerEvent {
    StdoutLine(String),
    StderrLine(String),
    Exited(Option<i32>),
    Closed,
}

/// One decoded line of worker output. Every raw event maps to exactly one
/// variant: `Success` and `Failure` are the two recognized stdout prefixes,
/// any other stdout line is a `Log`, stderr is always `ErrorStream`, process
/// exit is `Terminated`, and a closed event channel is `ChannelClosed`.
#[derive(Debug, PartialEq, Eq)]
pub enum ProtocolLine {
    Success(String),
    Failure(String),
    Log(String),
    ErrorStream(String),
    Terminated(Option<i32>),
    ChannelClosed,
}

/// The characters that line payloads are trimmed of, exactly the set with
/// the Unicode `White_Space` property.
pub open spec fn is_space(c: char) -> bool {
    let u = c as u32;
    u == 0x9 || u == 0xA || u == 0xB || u == 0xC || u == 0xD || u == 0x20 || u == 0x85
        || u == 0xA0 || u == 0x1680 || (0x2000 <= u && u <= 0x200A) || u == 0x2028
        || u == 0x2029 || u == 0x202F || u == 0x205F || u == 0x3000
}

fn is_space_char(c: char) -> (b: bool)
    ensures
        b == is_space(c),
{
    let u: u32 = c as u32;
    u == 0x9 || u == 0xA || u == 0xB || u == 0xC || u == 0xD || u == 0x20 || u == 0x85
        || u == 0xA0 || u == 0x1680 || (0x2000 <= u && u <= 0x200A) || u == 0x2028
        || u == 0x2029 || u == 0x202F || u == 0x205F || u == 0x3000
}

pub open spec fn has_prefix(s: Seq<char>, p: Seq<char>) -> bool {
    p.len() <= s.len() && s.subrange(0, p.len() as int) == p
}

/// The prefix that marks a successful terminal line.
pub open spec fn success_prefix() -> Seq<char> {
    seq!['S', 'U', 'C', 'C', 'E', 'S', 'S', '|']
}

/// The prefix that marks a worker-reported failure line.
pub open spec fn error_prefix() -> Seq<char> {
    seq!['E', 'R', 'R', 'O', 'R', '|']
}

pub open spec fn is_success_line(l: Seq<char>) -> bool {
    has_prefix(l, success_prefix())
}

pub open spec fn is_error_line(l: Seq<char>) -> bool {
    has_prefix(l, error_prefix())
}

/// The two recognized terminal prefixes exclude one another: no line is both
/// a success line and a failure line, whatever follows the prefix.
pub proof fn lemma_terminal_prefixes_exclusive(l: Seq<char>)
    ensures
        !(is_success_line(l) && is_error_line(l)),
{
    if is_success_line(l) && is_error_line(l) {
        assert(l.subrange(0, 8)[0] == l[0]);
        assert(l.subrange(0, 6)[0] == l[0]);
        assert(success_prefix()[0] == 'S');
        assert(error_prefix()[0] == 'E');
    }
}

/// Removing leading whitespace.
pub open spec fn trim_left(s: Seq<char>) -> Seq<char>
    decreases s.len(),
{
    if s.len() > 0 && is_space(s[0]) {
        trim_left(s.subrange(1, s.len() as int))
    } else {
        s
    }
}

/// Removing trailing whitespace.
pub open spec fn trim_right(s: Seq<char>) -> Seq<char>
    decreases s.len(),
{
    if s.len() > 0 && is_space(s[s.len() - 1]) {
        trim_right(s.subrange(0, s.len() - 1))
    } else {
        s
    }
}

/// What `trim` leaves of a sequence: the same characters with leading and
/// trailing whitespace removed.
pub open spec fn trimmed(s: Seq<char>) -> Seq<char> {
    trim_right(trim_left(s))
}

proof fn lemma_trim_left_at(s: Seq<char>, i: int)
    requires
        0 <= i <= s.len(),
        forall|j: int| 0 <= j < i ==> is_space(s[j]),
        i == s.len() || !is_space(s[i]),
    ensures
        trim_left(s) == s.subrange(i, s.len() as int),
    decreases i,
{
    if i == 0 {
        assert(s.subrange(0, s.len() as int) =~= s);
    } else {
        let tail = s.subrange(1, s.len() as int);
        assert(forall|j: int| 0 <= j < i - 1 ==> is_space(tail[j]));
        lemma_trim_left_at(tail, i - 1);
        assert(tail.subrange(i - 1, tail.len() as int) =~= s.subrange(i, s.len() as int));
    }
}

proof fn lemma_trim_right_at(s: Seq<char>, j: int)
    requires
        0 <= j <= s.len(),
        forall|k: int| j <= k < s.len() ==> is_space(s[k]),
        j == 0 || !is_space(s[j - 1]),
    ensures
        trim_right(s) == s.subrange(0, j),
    decreases s.len(),
{
    if j == s.len() {
        if s.len() > 0 && is_space(s[s.len() - 1]) {
            assert(!is_space(s[j - 1]));
        }
        assert(s.subrange(0, s.len() as int) =~= s);
    } else {
        assert(is_space(s[s.len() - 1]));
        let head = s.subrange(0, s.len() - 1);
        assert(forall|k: int| j <= k < head.len() ==> is_space(head[k]));
        lemma_trim_right_at(head, j);
        assert(head.subrange(0, j) =~= s.subrange(0, j));
    }
}

fn scan_space_prefix(s: &str) -> (i: usize)
    ensures
        0 <= i <= s@.len(),
        forall|j: int| 0 <= j < i ==> is_space(s@[j]),
        i < s@.len() ==> !is_space(s@[i as int]),
{
    let n: usize = s.unicode_len();
    let mut i: usize = 0;
    while i < n
        invariant
            i <= n,
            n == s@.len(),
            forall|j: int| 0 <= j < i ==> is_space(s@[j]),
        decreases n - i,
    {
        if !is_space_char(s.get_char(i)) {
            return i;
        }
        i = i + 1;
    }
    i
}

fn scan_space_suffix(s: &str, lo: usize) -> (j: usize)
    requires
        lo <= s@.len(),
    ensures
        lo <= j <= s@.len(),
        forall|k: int| j <= k < s@.len() ==> is_space(s@[k]),
        j > lo ==> !is_space(s@[j - 1]),
{
    let n: usize = s.unicode_len();
    let mut j: usize = n;
    while j > lo
        invariant
            lo <= j <= n,
            n == s@.len(),
            forall|k: int| j <= k < n ==> is_space(s@[k]),
        decreases j,
    {
        if !is_space_char(s.get_char(j - 1)) {
            return j;
        }
        j = j - 1;
    }
    j
}

/// Removes leading and trailing whitespace, exactly as [`trimmed`] says.
pub fn trim_str<'a>(s: &'a str) -> (r: &'a str)
    ensures
        r@ == trimmed(s@),
{
    let i: usize = scan_space_prefix(s);
    let j: usize = scan_space_suffix(s, i);
    proof {
        lemma_trim_left_at(s@, i as int);
        let mid = s@.subrange(i as int, s@.len() as int);
        assert(forall|k: int|
            j - i <= k < mid.len() ==> is_space(#[trigger] mid[k]) == is_space(s@[k + i]));
        lemma_trim_right_at(mid, j - i);
        assert(mid.subrange(0, j - i) =~= s@.subrange(i as int, j as int));
    }
    s.substring_char(i, j)
}

fn str_has_prefix(s: &str, p: &str) -> (b: bool)
    ensures
        b == has_prefix(s@, p@),
{
    let sn: usize = s.unicode_len();
    let pn: usize = p.unicode_len();
    if pn > sn {
        return false;
    }
    let mut i: usize = 0;
    while i < pn
        invariant
            i <= pn <= sn,
            sn == s@.len(),
            pn == p@.len(),
            forall|j: int| 0 <= j < i ==> s@[j] == p@[j],
        decreases pn - i,
    {
        if s.get_char(i) != p.get_char(i) {
            proof {
                assert(s@.subrange(0, p@.len() as int)[i as int] == s@[i as int]);
            }
            return false;
        }
        i = i + 1;
    }
    proof {
        assert(s@.subrange(0, p@.len() as int) =~= p@);
    }
    true
}

/// Classifies one line of worker standard output.
///
/// The classification is total and mutually exclusive: a line starting with
/// `SUCCESS|` carries the trimmed remainder as a success payload, a line
/// starting with `ERROR|` carries the trimmed remainder as a failure
/// message, and every other line is a log line forwarded as-is.
pub fn classify_stdout(line: &str) -> (r: ProtocolLine)
    ensures
        is_success_line(line@) ==> (r matches ProtocolLine::Success(p) && p@ == trimmed(
            line@.subrange(8, line@.len() as int),
        )),
        !is_success_line(line@) && is_error_line(line@) ==> (r matches ProtocolLine::Failure(m)
            && m@ == trimmed(line@.subrange(6, line@.len() as int))),
        !is_success_line(line@) && !is_error_line(line@) ==> (r matches ProtocolLine::Log(t)
            && t@ == line@),
{
    proof {
        reveal_strlit("SUCCESS|");
        reveal_strlit("ERROR|");
        assert("SUCCESS|"@ =~= success_prefix());
        assert("ERROR|"@ =~= error_prefix());
    }
    if str_has_prefix(line, "SUCCESS|") {
        let rest = line.substring_char(8, line.unicode_len());
        let payload = trim_str(rest);
        ProtocolLine::Success(String::from_str(payload))
    } else if str_has_prefix(line, "ERROR|") {
        let rest = line.substring_char(6, line.unicode_len());
        let message = trim_str(rest);
        ProtocolLine::Failure(String::from_str(message))
    } else {
        ProtocolLine::Log(String::from_str(line))
    }
}

/// Whether a raw event ends an exchange: a stdout line with one of the two
/// terminal prefixes, process exit, or a closed channel.
pub open spec fn is_terminal_event(e: WorkerEvent) -> bool {
    match e {
        WorkerEvent::StdoutLine(l) => is_success_line(l@) || is_error_line(l@),
        WorkerEvent::StderrLine(_) => false,
        WorkerEvent::Exited(_) => true,
        WorkerEvent::Closed => true,
    }
}

/// Decodes one raw event from the process handle into its protocol meaning.
pub fn decode_event(e: &WorkerEvent) -> (r: ProtocolLine)
    ensures
        e matches WorkerEvent::StdoutLine(l) ==> {
            &&& is_success_line(l@) ==> (r matches ProtocolLine::Success(p) && p@ == trimmed(
                l@.subrange(8, l@.len() as int),
            ))
            &&& !is_success_line(l@) && is_error_line(l@) ==> (
            r matches ProtocolLine::Failure(m) && m@ == trimmed(l@.subrange(6, l@.len() as int)))
            &&& !is_success_line(l@) && !is_error_line(l@) ==> (r matches ProtocolLine::Log(t)
                && t@ == l@)
        },
        e matches WorkerEvent::StderrLine(l) ==> (r matches ProtocolLine::ErrorStream(t) && t@
            == l@),
        e matches WorkerEvent::Exited(c) ==> r == ProtocolLine::Terminated(*c),
        e matches WorkerEvent::Closed ==> r == ProtocolLine::ChannelClosed,
{
    match e {
        WorkerEvent::StdoutLine(l) => classify_stdout(l.as_str()),
        WorkerEvent::StderrLine(l) => ProtocolLine::ErrorStream(l.clone()),
        WorkerEvent::Exited(c) => ProtocolLine::Terminated(*c),
        WorkerEvent::Closed => ProtocolLine::ChannelClosed,
    }
}

} // verus!
