//! Instance logging: the log levels, instance ids, the lines written to the
//! log file and the ring of recent lines shown in the editor.
use vstd::prelude::*;
use vstd::string::StringExecFns;
use crate::clock::{system_time_now, since_unix_epoch, duration_as_nanos};
use crate::text::{hex_string, hex_text};
use crate::channel_set::{lemma_map_push, lemma_map_prefix_step};

verus! {

/// How many recent lines the editor shows.
pub const MAX_RECENT_LOGS: usize = 50;

/// Log levels, most severe first.
#[derive(Debug, Clone, Copy, PartialEq, Eq, PartialOrd, Ord)]
pub enum Level {
    Error,
    Warn,
    Info,
    Debug,
    Trace,
}

/// Level of a message of the editor's window-side trace log.
#[derive(Clone, Copy, Debug, PartialEq, Eq)]
pub enum TraceLogLevel {
    Info,
    Warn,
    Error,
}

/// Level of a message of the editor's stage log.
#[derive(Clone, Copy, Debug, PartialEq, Eq)]
pub enum EditorStageLogLevel {
    Info,
    Warn,
    Error,
}

/// The five-character label of a level in log lines.
pub open spec fn level_label(l: Level) -> Seq<char> {
    match l {
        Level::Error => "ERROR"@,
        Level::Warn => "WARN "@,
        Level::Info => "INFO "@,
        Level::Debug => "DEBUG"@,
        Level::Trace => "TRACE"@,
    }
}

impl Level {
    /// The level's label as log lines show it.
    pub fn to_string(&self) -> (s: String)
        ensures
            s@ == level_label(*self),
    {
        match self {
            Level::Error => String::from_str("ERROR"),
            Level::Warn => String::from_str("WARN "),
            Level::Info => String::from_str("INFO "),
            Level::Debug => String::from_str("DEBUG"),
            Level::Trace => String::from_str("TRACE"),
        }
    }
}

/// The instance id for a time in nanoseconds: the low 32 bits as eight
/// lower-case hexadecimal digits.
pub fn instance_id_from_nanos(nanos: u128) -> (s: String)
    ensures
        s@ == hex_text((nanos % 0x1_0000_0000) as nat, 8),
{
    let low = (nanos % 0x1_0000_0000) as u64;
    hex_string(low, 8)
}

/// A fresh instance id from the wall clock's nanoseconds since the Unix
/// epoch (taken as zero when the clock reads before the epoch).
pub fn generate_instance_id() -> (s: String)
    ensures
        s@.len() == 8,
        exists|n: nat| n < 0x1_0000_0000 && s@ == #[trigger] hex_text(n, 8),
{
    let now = system_time_now();
    let nanos: u128 = match since_unix_epoch(&now) {
        Some(d) => duration_as_nanos(&d),
        None => 0,
    };
    let s = instance_id_from_nanos(nanos);
    proof {
        lemma_hex_text_len((nanos % 0x1_0000_0000) as nat, 8);
        assert(((nanos % 0x1_0000_0000) as nat) < 0x1_0000_0000);
    }
    s
}

proof fn lemma_hex_text_len(n: nat, width: nat)
    ensures
        hex_text(n, width).len() == width,
    decreases width,
{
    if width > 0 {
        lemma_hex_text_len(n / 16, (width - 1) as nat);
    }
}

/// A line of the log file: `[time] [LEVEL] [module] message`.
pub open spec fn file_line_text(time: Seq<char>, level: Level, module: Seq<char>, message: Seq<char>) -> Seq<char> {
    "["@ + time + "] ["@ + level_label(level) + "] ["@ + module + "] "@ + message
}

/// A line of the editor's log view: `[time] [module] message`.
pub open spec fn ui_line_text(time: Seq<char>, module: Seq<char>, message: Seq<char>) -> Seq<char> {
    "["@ + time + "] ["@ + module + "] "@ + message
}

/// The log file line of an entry.
pub fn file_line(time: &str, level: Level, module: &str, message: &str) -> (s: String)
    ensures
        s@ == file_line_text(time@, level, module@, message@),
{
    let mut s = String::from_str("[");
    s.append(time);
    s.append("] [");
    let label = level.to_string();
    s.append(label.as_str());
    s.append("] [");
    s.append(module);
    s.append("] ");
    s.append(message);
    s
}

/// The editor's log view line of an entry.
pub fn ui_line(time: &str, module: &str, message: &str) -> (s: String)
    ensures
        s@ == ui_line_text(time@, module@, message@),
{
    let mut s = String::from_str("[");
    s.append(time);
    s.append("] [");
    s.append(module);
    s.append("] ");
    s.append(message);
    s
}

/// The name of an instance's log file: `MCM_<id>_<time>.log`.
pub fn log_file_name(instance_id: &str, time: &str) -> (s: String)
    ensures
        s@ == "MCM_"@ + instance_id@ + "_"@ + time@ + ".log"@,
{
    let mut s = String::from_str("MCM_");
    s.append(instance_id);
    s.append("_");
    s.append(time);
    s.append(".log");
    s
}

/// The lines that open a log file: a rule, the start notice, the instance
/// id and a rule.
pub fn header_lines(time: &str, instance_id: &str) -> (v: Vec<String>)
    ensures
        v@.len() == 4,
        v@[0]@ == "\n=================================================================="@,
        v@[1]@ == "["@ + time@ + "] [INFO ] MonitorControllerMax Logger Initialized"@,
        v@[2]@ == "["@ + time@ + "] [INFO ] Instance ID: "@ + instance_id@,
        v@[3]@ == "=================================================================="@,
{
    let mut v: Vec<String> = Vec::new();
    v.push(String::from_str("\n=================================================================="));
    let mut started = String::from_str("[");
    started.append(time);
    started.append("] [INFO ] MonitorControllerMax Logger Initialized");
    v.push(started);
    let mut id_line = String::from_str("[");
    id_line.append(time);
    id_line.append("] [INFO ] Instance ID: ");
    id_line.append(instance_id);
    v.push(id_line);
    v.push(String::from_str("=================================================================="));
    v
}

/// The most recent editor log lines, oldest first, at most `MAX_RECENT_LOGS`.
pub struct RecentLogs {
    lines: std::collections::VecDeque<String>,
}

/// The last `n` lines of `s` (all of them when there are fewer).
pub open spec fn last_lines(s: Seq<Seq<char>>, n: nat) -> Seq<Seq<char>> {
    if s.len() <= n { s } else { s.subrange(s.len() - n, s.len() as int) }
}

impl RecentLogs {
    /// The lines held, oldest first.
    pub closed spec fn lines(&self) -> Seq<Seq<char>> {
        self.lines@.map_values(|l: String| l@)
    }

    pub open spec fn wf(&self) -> bool {
        self.lines().len() <= MAX_RECENT_LOGS
    }

    /// No line.
    pub fn new() -> (r: Self)
        ensures
            r.wf(),
            r.lines() == Seq::<Seq<char>>::empty(),
    {
        let r = RecentLogs { lines: std::collections::VecDeque::new() };
        proof {
            assert(r.lines() =~= Seq::<Seq<char>>::empty());
        }
        r
    }

    /// Adds a line, dropping the oldest when `MAX_RECENT_LOGS` are held.
    pub fn push(&mut self, line: String)
        requires
            old(self).wf(),
        ensures
            final(self).wf(),
            final(self).lines() == last_lines(old(self).lines().push(line@), MAX_RECENT_LOGS as nat),
    {
        let ghost before = self.lines@;
        if self.lines.len() >= MAX_RECENT_LOGS {
            let _ = self.lines.pop_front();
        }
        let ghost mid = self.lines@;
        self.lines.push_back(line);
        proof {
            let f = |l: String| l@;
            let full = before.map_values(f).push(line@);
            if before.len() >= MAX_RECENT_LOGS {
                assert(mid =~= before.subrange(1, before.len() as int));
                assert(self.lines@.map_values(f) =~= full.subrange(full.len() - MAX_RECENT_LOGS, full.len() as int));
            } else {
                assert(self.lines@.map_values(f) =~= full);
            }
        }
    }

    /// A copy of the lines, oldest first.
    pub fn get_recent_logs(&self) -> (v: Vec<String>)
        ensures
            v@.map_values(|l: String| l@) == self.lines(),
    {
        let mut v: Vec<String> = Vec::new();
        let ghost f = |l: String| l@;
        let mut i: usize = 0;
        while i < self.lines.len()
            invariant
                i <= self.lines@.len(),
                f == (|l: String| l@),
                v@.map_values(f) == self.lines@.subrange(0, i as int).map_values(f),
            decreases self.lines@.len() - i,
        {
            let line = self.lines[i].clone();
            let ghost before = v@;
            v.push(line);
            proof {
                lemma_map_push(before, line, f);
                lemma_map_prefix_step(self.lines@, i as int, f);
            }
            i = i + 1;
        }
        proof {
            assert(self.lines@.subrange(0, self.lines@.len() as int) =~= self.lines@);
        }
        v
    }
}

} // verus!
