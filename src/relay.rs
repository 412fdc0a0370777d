//! Relaying the server's output streams into the host's logs, line by line.
use vstd::prelude::*;
use vstd::string::StringExecFns;

verus! {

/// One of the child's two piped output streams.
#[derive(Clone, Copy, Debug, PartialEq, Eq, Structural)]
pub enum StreamKind {
    Stdout,
    Stderr,
}

/// The host log a relayed line goes to.
#[derive(Clone, Copy, Debug, PartialEq, Eq, Structural)]
pub enum LogChannel {
    Info,
    Error,
}

/// A line ready for the host's log.
#[derive(Clone, Debug)]
pub struct LogRecord {
    pub channel: LogChannel,
    pub text: String,
}

/// Marks a line that the server wrote to its standard output.
pub const STDOUT_TAG: &'static str = "[API] ";

/// Marks a line that the server wrote to its standard error.
pub const STDERR_TAG: &'static str = "[API ERR] ";

pub open spec fn channel_of(stream: StreamKind) -> LogChannel {
    match stream {
        StreamKind::Stdout => LogChannel::Info,
        StreamKind::Stderr => LogChannel::Error,
    }
}

pub open spec fn tag_of(stream: StreamKind) -> Seq<char> {
    match stream {
        StreamKind::Stdout => STDOUT_TAG@,
        StreamKind::Stderr => STDERR_TAG@,
    }
}

/// The text logged for a line of the given stream.
pub open spec fn tagged(stream: StreamKind, line: Seq<char>) -> Seq<char> {
    tag_of(stream) + line
}

/// The log record for one line of the given stream: tagged with its source,
/// on the information log for standard output and the error log for
/// standard error.
pub fn tag_line(stream: StreamKind, line: &str) -> (r: LogRecord)
    ensures
        r.channel == channel_of(stream),
        r.text@ == tagged(stream, line@),
{
    match stream {
        StreamKind::Stdout => LogRecord {
            channel: LogChannel::Info,
            text: String::from_str(STDOUT_TAG).concat(line),
        },
        StreamKind::Stderr => LogRecord {
            channel: LogChannel::Error,
            text: String::from_str(STDERR_TAG).concat(line),
        },
    }
}

/// What a relay does with what its stream produced next.
#[derive(Clone, Debug)]
pub enum RelayStep {
    /// Log this record and read on.
    Emit(LogRecord),
    /// The stream is over (closed, or no longer readable): the relay ends.
    Stop,
}

/// One step of a relay: a line read is logged; the end of the stream ends
/// the relay, without error.
pub fn relay_step(stream: StreamKind, next: Option<String>) -> (r: RelayStep)
    ensures
        match next {
            Some(line) => r matches RelayStep::Emit(rec)
                && rec.channel == channel_of(stream) && rec.text@ == tagged(stream, line@),
            None => r is Stop,
        },
{
    match next {
        Some(line) => RelayStep::Emit(tag_line(stream, line.as_str())),
        None => RelayStep::Stop,
    }
}

/// The records a relay logs for the lines of one stream: one per line, in
/// the order written, each tagged with the stream.
pub fn relay_lines(stream: StreamKind, lines: &Vec<String>) -> (r: Vec<LogRecord>)
    ensures
        r@.len() == lines@.len(),
        forall|i: int| 0 <= i < r@.len() ==> {
            &&& (#[trigger] r@[i]).channel == channel_of(stream)
            &&& r@[i].text@ == tagged(stream, lines@[i]@)
        },
{
    let mut r: Vec<LogRecord> = Vec::new();
    let mut i: usize = 0;
    while i < lines.len()
        invariant
            i <= lines@.len(),
            r@.len() == i,
            forall|j: int| 0 <= j < i ==> {
                &&& (#[trigger] r@[j]).channel == channel_of(stream)
                &&& r@[j].text@ == tagged(stream, lines@[j]@)
            },
        decreases lines@.len() - i,
    {
        r.push(tag_line(stream, lines[i].as_str()));
        i = i + 1;
    }
    r
}

/// A line relayed from standard output never reads like one relayed from
/// standard error, whatever the two lines hold.
pub proof fn lemma_tags_distinguish(out_line: Seq<char>, err_line: Seq<char>)
    ensures
        tagged(StreamKind::Stdout, out_line) != tagged(StreamKind::Stderr, err_line),
        channel_of(StreamKind::Stdout) != channel_of(StreamKind::Stderr),
{
    reveal_strlit("[API] ");
    reveal_strlit("[API ERR] ");
    let a = tagged(StreamKind::Stdout, out_line);
    let b = tagged(StreamKind::Stderr, err_line);
    assert(a[4] == ']');
    assert(b[4] == ' ');
}

} // verus!
