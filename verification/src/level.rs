//! Severity levels and their order.

use vstd::prelude::*;

use crate::text::{is_word, matches_word};

verus! {

/// Severity of an event, from the most severe (`Error`) to the most verbose
/// (`Trace`). A level also serves as a threshold: a threshold admits every
/// level that is at least as severe as itself.
#[derive(Clone, Copy, Debug, PartialEq, Eq, Structural)]
pub enum Level {
    Error,
    Warn,
    Info,
    Debug,
    Trace,
}

impl Level {
    /// Position in the order: 0 for `Error`, 4 for `Trace`.
    pub open spec fn rank(self) -> nat {
        match self {
            Level::Error => 0,
            Level::Warn => 1,
            Level::Info => 2,
            Level::Debug => 3,
            Level::Trace => 4,
        }
    }

    /// Whether a threshold of `self` lets an event of `level` through.
    pub open spec fn admits(self, level: Level) -> bool {
        level.rank() <= self.rank()
    }

    /// The more verbose of two levels.
    pub open spec fn spec_loosest(self, other: Level) -> Level {
        if self.rank() >= other.rank() {
            self
        } else {
            other
        }
    }

    /// Upper-case name, as printed between brackets in a log line.
    pub open spec fn spec_name(self) -> Seq<char> {
        match self {
            Level::Error => "ERROR"@,
            Level::Warn => "WARN"@,
            Level::Info => "INFO"@,
            Level::Debug => "DEBUG"@,
            Level::Trace => "TRACE"@,
        }
    }

    /// Lower-case name, as directives are mostly written.
    pub open spec fn spec_lower_name(self) -> Seq<char> {
        match self {
            Level::Error => "error"@,
            Level::Warn => "warn"@,
            Level::Info => "info"@,
            Level::Debug => "debug"@,
            Level::Trace => "trace"@,
        }
    }

    /// The threshold that a verbosity count asks for: none for 0, `Info` for
    /// 1, `Debug` for 2 and `Trace` for anything above.
    pub open spec fn spec_from_verbosity(verbosity: usize) -> Option<Level> {
        if verbosity == 0 {
            None
        } else if verbosity == 1 {
            Some(Level::Info)
        } else if verbosity == 2 {
            Some(Level::Debug)
        } else {
            Some(Level::Trace)
        }
    }

    /// The level that `word` names, in upper or lower case letters.
    pub open spec fn spec_parse(word: Seq<char>) -> Option<Level> {
        if matches_word(word, "error"@, "ERROR"@) {
            Some(Level::Error)
        } else if matches_word(word, "warn"@, "WARN"@) {
            Some(Level::Warn)
        } else if matches_word(word, "info"@, "INFO"@) {
            Some(Level::Info)
        } else if matches_word(word, "debug"@, "DEBUG"@) {
            Some(Level::Debug)
        } else if matches_word(word, "trace"@, "TRACE"@) {
            Some(Level::Trace)
        } else {
            None
        }
    }

    pub fn severity(self) -> (r: u8)
        ensures
            r == self.rank(),
    {
        match self {
            Level::Error => 0,
            Level::Warn => 1,
            Level::Info => 2,
            Level::Debug => 3,
            Level::Trace => 4,
        }
    }

    pub fn allows(self, level: Level) -> (r: bool)
        ensures
            r == self.admits(level),
    {
        level.severity() <= self.severity()
    }

    pub fn loosest(self, other: Level) -> (r: Level)
        ensures
            r == self.spec_loosest(other),
    {
        if self.severity() >= other.severity() {
            self
        } else {
            other
        }
    }

    pub fn name(self) -> (r: &'static str)
        ensures
            r@ == self.spec_name(),
    {
        match self {
            Level::Error => "ERROR",
            Level::Warn => "WARN",
            Level::Info => "INFO",
            Level::Debug => "DEBUG",
            Level::Trace => "TRACE",
        }
    }

    /// Reads a level name out of `v[from..to]`.
    pub fn parse(v: &Vec<char>, from: usize, to: usize) -> (r: Option<Level>)
        requires
            from <= to <= v.len(),
        ensures
            r == Level::spec_parse(v@.subrange(from as int, to as int)),
    {
        proof {
            reveal_strlit("error");
            reveal_strlit("ERROR");
            reveal_strlit("warn");
            reveal_strlit("WARN");
            reveal_strlit("info");
            reveal_strlit("INFO");
            reveal_strlit("debug");
            reveal_strlit("DEBUG");
            reveal_strlit("trace");
            reveal_strlit("TRACE");
        }
        if is_word(v, from, to, "error", "ERROR") {
            Some(Level::Error)
        } else if is_word(v, from, to, "warn", "WARN") {
            Some(Level::Warn)
        } else if is_word(v, from, to, "info", "INFO") {
            Some(Level::Info)
        } else if is_word(v, from, to, "debug", "DEBUG") {
            Some(Level::Debug)
        } else if is_word(v, from, to, "trace", "TRACE") {
            Some(Level::Trace)
        } else {
            None
        }
    }

    pub fn from_verbosity(verbosity: usize) -> (r: Option<Level>)
        ensures
            r == Level::spec_from_verbosity(verbosity),
    {
        if verbosity == 0 {
            None
        } else if verbosity == 1 {
            Some(Level::Info)
        } else if verbosity == 2 {
            Some(Level::Debug)
        } else {
            Some(Level::Trace)
        }
    }
}

/// Every level is read back from its name, in upper and in lower case, and
/// no name holds a comma or an equals sign.
pub proof fn lemma_names_parse(level: Level)
    ensures
        Level::spec_parse(level.spec_name()) == Some(level),
        Level::spec_parse(level.spec_lower_name()) == Some(level),
        !level.spec_name().contains('=') && !level.spec_name().contains(','),
        !level.spec_lower_name().contains('=') && !level.spec_lower_name().contains(','),
{
    reveal_strlit("error");
    reveal_strlit("ERROR");
    reveal_strlit("warn");
    reveal_strlit("WARN");
    reveal_strlit("info");
    reveal_strlit("INFO");
    reveal_strlit("debug");
    reveal_strlit("DEBUG");
    reveal_strlit("trace");
    reveal_strlit("TRACE");
    let upper = level.spec_name();
    let lower = level.spec_lower_name();
    // The first letter tells a name from those of its length that are
    // tried before it.
    assert(upper[0] != lower[0]);
    assert(matches_word(upper, lower, upper));
    assert(matches_word(lower, lower, upper));
}

} // verus!
