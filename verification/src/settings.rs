//! The fixed settings of the sinks.

use vstd::prelude::*;
use vstd::string::StringExecFns;

verus! {

/// Name of the environment variable that holds the directive string.
pub open spec fn spec_directive_variable() -> Seq<char> {
    "TURBO_LOG_VERBOSITY"@
}

pub fn directive_variable() -> (r: &'static str)
    ensures
        r@ == spec_directive_variable(),
{
    "TURBO_LOG_VERBOSITY"
}

/// How lines wait for the thread that writes the log file.
#[derive(Clone, Copy, Debug, PartialEq, Eq, Structural)]
pub struct QueueSettings {
    /// Whether a line is dropped when the queue is full. Where it is not,
    /// the thread that emits the event waits for room.
    pub lossy: bool,
    /// Number of lines that the queue holds.
    pub buffered_lines_limit: usize,
}

impl QueueSettings {
    /// Lines are dropped rather than waited for: logging never holds the
    /// tool up. The queue is long enough that this takes 128 000 lines
    /// which the writer has not got to yet.
    pub fn standard() -> (r: QueueSettings)
        ensures
            r == (QueueSettings { lossy: true, buffered_lines_limit: 128_000 }),
    {
        QueueSettings { lossy: true, buffered_lines_limit: 128_000 }
    }
}

/// How the timeline trace is written.
#[derive(Clone, Copy, Debug, PartialEq, Eq, Structural)]
pub struct TimelineSettings {
    /// Whether the arguments of spans and events are recorded.
    pub include_args: bool,
    /// Whether source locations are recorded.
    pub include_locations: bool,
    /// Whether spans are written in the asynchronous style, which does not
    /// take calls to nest strictly across threads.
    pub asynchronous: bool,
}

impl TimelineSettings {
    /// Arguments as the caller likes; locations and the asynchronous style
    /// always.
    pub fn new(include_args: bool) -> (r: TimelineSettings)
        ensures
            r == (TimelineSettings { include_args, include_locations: true, asynchronous: true }),
    {
        TimelineSettings { include_args, include_locations: true, asynchronous: true }
    }
}

/// How the remote export is set up.
#[derive(Clone, Debug, PartialEq, Eq)]
pub struct RemoteSettings {
    /// The collector's address.
    pub endpoint: String,
    /// Seconds that building the export client may take.
    pub timeout_secs: u64,
    /// Value of the `service.name` tag, and name of the tracer.
    pub service_name: String,
}

impl RemoteSettings {
    /// The collector on this machine, one second to reach it, and the
    /// service name `turbo`.
    pub fn local() -> (r: RemoteSettings)
        ensures
            r.endpoint@ == "http://localhost:4317"@,
            r.timeout_secs == 1,
            r.service_name@ == "turbo"@,
    {
        RemoteSettings {
            endpoint: String::from_str("http://localhost:4317"),
            timeout_secs: 1,
            service_name: String::from_str("turbo"),
        }
    }
}

/// How the profiler samples.
#[derive(Clone, Debug, PartialEq, Eq)]
pub struct ProfilerSettings {
    /// Samples per second.
    pub frequency: i32,
    /// Libraries whose frames are not resolved to symbols.
    pub blocklist: Vec<String>,
}

impl ProfilerSettings {
    /// A thousand samples per second, without the frames of the system's
    /// runtime libraries.
    pub fn standard() -> (r: ProfilerSettings)
        ensures
            r.frequency == 1000,
            r.blocklist@.len() == 4,
            r.blocklist@[0]@ == "libc"@,
            r.blocklist@[1]@ == "libgcc"@,
            r.blocklist@[2]@ == "pthread"@,
            r.blocklist@[3]@ == "vdso"@,
    {
        let mut blocklist: Vec<String> = Vec::new();
        blocklist.push(String::from_str("libc"));
        blocklist.push(String::from_str("libgcc"));
        blocklist.push(String::from_str("pthread"));
        blocklist.push(String::from_str("vdso"));
        ProfilerSettings { frequency: 1000, blocklist }
    }
}

} // verus!
