use vstd::prelude::*;
use vstd::string::StringExecFns;

verus! {

/// Severity of a log record, from the most to the least severe.
#[derive(Copy, Clone, Eq, PartialEq, Debug, Structural)]
pub enum LogLevel {
    Critical,
    Error,
    Warning,
    Info,
    Debug,
}

impl LogLevel {
    /// Number of the level: 1 for `Critical` up to 5 for `Debug`.
    pub open spec fn rank(self) -> int {
        match self {
            LogLevel::Critical => 1,
            LogLevel::Error => 2,
            LogLevel::Warning => 3,
            LogLevel::Info => 4,
            LogLevel::Debug => 5,
        }
    }

    /// The name of the level, as it stands in a log line.
    pub open spec fn name(self) -> Seq<char> {
        match self {
            LogLevel::Critical => "Critical"@,
            LogLevel::Error => "Error"@,
            LogLevel::Warning => "Warning"@,
            LogLevel::Info => "Info"@,
            LogLevel::Debug => "Debug"@,
        }
    }

    pub fn as_str(self) -> (r: &'static str)
        ensures
            r@ == self.name(),
    {
        match self {
            LogLevel::Critical => "Critical",
            LogLevel::Error => "Error",
            LogLevel::Warning => "Warning",
            LogLevel::Info => "Info",
            LogLevel::Debug => "Debug",
        }
    }

    pub fn number(self) -> (r: u8)
        ensures
            r == self.rank(),
    {
        match self {
            LogLevel::Critical => 1,
            LogLevel::Error => 2,
            LogLevel::Warning => 3,
            LogLevel::Info => 4,
            LogLevel::Debug => 5,
        }
    }
}

/// One record handed to the logger.
pub struct Log {
    pub level: LogLevel,
    pub target: String,
    pub message: String,
    pub file: String,
    pub line: u32,
}

/// The decimal digit `d`, for `d` below ten.
pub open spec fn digit(d: int) -> Seq<char> {
    if d == 0 {
        "0"@
    } else if d == 1 {
        "1"@
    } else if d == 2 {
        "2"@
    } else if d == 3 {
        "3"@
    } else if d == 4 {
        "4"@
    } else if d == 5 {
        "5"@
    } else if d == 6 {
        "6"@
    } else if d == 7 {
        "7"@
    } else if d == 8 {
        "8"@
    } else {
        "9"@
    }
}

/// The decimal numeral of `n`, without leading zeros.
pub open spec fn decimal(n: nat) -> Seq<char>
    decreases n,
{
    if n < 10 {
        digit(n as int)
    } else {
        decimal(n / 10) + digit((n % 10) as int)
    }
}

/// The line that a record is written as: the level, then the file and the
/// line of the place that logged, then the target, then the message.
pub open spec fn line_of(log: Log) -> Seq<char> {
    log.level.name() + " in ('"@ + log.file@ + "':"@ + decimal(log.line as nat) + ") ["@
        + log.target@ + "]: "@ + log.message@
}

fn digit_text(d: u32) -> (r: &'static str)
    requires
        d < 10,
    ensures
        r@ == digit(d as int),
{
    if d == 0 {
        "0"
    } else if d == 1 {
        "1"
    } else if d == 2 {
        "2"
    } else if d == 3 {
        "3"
    } else if d == 4 {
        "4"
    } else if d == 5 {
        "5"
    } else if d == 6 {
        "6"
    } else if d == 7 {
        "7"
    } else if d == 8 {
        "8"
    } else {
        "9"
    }
}

fn push_decimal(n: u32, out: &mut String)
    ensures
        final(out)@ == old(out)@ + decimal(n as nat),
    decreases n,
{
    if n >= 10 {
        push_decimal(n / 10, out);
    }
    out.append(digit_text(n % 10));
    assert(out@ =~= old(out)@ + decimal(n as nat));
}

/// Writes a record as its line.
pub fn render(log: &Log) -> (r: String)
    ensures
        r@ == line_of(*log),
{
    let mut line = String::new();
    line.append(log.level.as_str());
    line.append(" in ('");
    line.append(log.file.as_str());
    line.append("':");
    push_decimal(log.line, &mut line);
    line.append(") [");
    line.append(log.target.as_str());
    line.append("]: ");
    line.append(log.message.as_str());
    assert(line@ =~= line_of(*log));
    line
}

/// Filter of log records by severity.
pub struct Logger {
    level: LogLevel,
}

impl Logger {
    /// The most verbose level that the logger lets through.
    pub closed spec fn level(&self) -> LogLevel {
        self.level
    }

    /// A logger that lets through `Info` and everything more severe.
    pub fn new() -> (r: Logger)
        ensures
            r.level() == LogLevel::Info,
    {
        Logger { level: LogLevel::Info }
    }

    pub fn get_level(&self) -> (r: LogLevel)
        ensures
            r == self.level(),
    {
        self.level
    }

    pub fn set_level(&mut self, level: LogLevel)
        ensures
            final(self).level() == level,
    {
        self.level = level;
    }

    /// Hands out the line to write for a record, and nothing for a record
    /// that is less severe than the logger's level.
    pub fn log(&mut self, log: Log) -> (r: Option<String>)
        ensures
            final(self).level() == old(self).level(),
            match r {
                Some(line) => log.level.rank() <= old(self).level().rank() && line@ == line_of(log),
                None => log.level.rank() > old(self).level().rank(),
            },
    {
        if self.accepts(&log) {
            Some(render(&log))
        } else {
            None
        }
    }

    /// Whether a record is written: its level is at least as severe as the
    /// logger's.
    pub fn accepts(&self, log: &Log) -> (r: bool)
        ensures
            r == (log.level.rank() <= self.level().rank()),
    {
        log.level.number() <= self.level.number()
    }
}

} // verus!
