//! Log-level policy and message shaping. The caller owns the terminal: it
//! decides colors and timestamps and performs the printing; everything that
//! can be decided from values alone is decided here.

use vstd::prelude::*;

verus! {

/// Severity of a log message, least severe first.
#[derive(Debug, Copy, Clone, PartialEq, Eq, Structural)]
pub enum LogLevel {
    Debug,
    Info,
    Warn,
    Error,
    Panic,
    Off,
}

/// The numeric rank of a level: a message passes a threshold exactly when
/// its rank is at least the threshold's.
pub open spec fn level_rank(l: LogLevel) -> int {
    match l {
        LogLevel::Debug => 0,
        LogLevel::Info => 1,
        LogLevel::Warn => 2,
        LogLevel::Error => 3,
        LogLevel::Panic => 4,
        LogLevel::Off => 5,
    }
}

/// A logger configuration: the threshold below which messages are dropped.
/// One value is created per run and passed along explicitly.
#[derive(Debug, Copy, Clone, PartialEq, Eq, Structural)]
pub struct Logger {
    pub level: LogLevel,
}

/// Creates the logger configuration for one run, with the given threshold.
pub fn init(level: LogLevel) -> (r: Logger)
    ensures
        r.level == level,
{
    Logger { level }
}

fn rank(l: LogLevel) -> (r: u8)
    ensures
        r as int == level_rank(l),
{
    match l {
        LogLevel::Debug => 0,
        LogLevel::Info => 1,
        LogLevel::Warn => 2,
        LogLevel::Error => 3,
        LogLevel::Panic => 4,
        LogLevel::Off => 5,
    }
}

impl Logger {
    /// Whether a message at `level` passes this logger's threshold.
    pub fn should_log(&self, level: LogLevel) -> (r: bool)
        ensures
            r == (level_rank(level) >= level_rank(self.level)),
    {
        rank(level) >= rank(self.level)
    }
}

/// The one-character tag of a level.
pub open spec fn token_of(l: LogLevel) -> Seq<char> {
    match l {
        LogLevel::Debug => "D"@,
        LogLevel::Info => "I"@,
        LogLevel::Warn => "W"@,
        LogLevel::Error => "X"@,
        LogLevel::Panic => "!"@,
        LogLevel::Off => " "@,
    }
}

/// The one-character tag of a level.
pub fn token(level: &LogLevel) -> (r: &str)
    ensures
        r@ == token_of(*level),
{
    match level {
        LogLevel::Debug => "D",
        LogLevel::Info => "I",
        LogLevel::Warn => "W",
        LogLevel::Error => "X",
        LogLevel::Panic => "!",
        LogLevel::Off => " ",
    }
}

/// The colors a terminal message can be painted in.
#[derive(Debug, Copy, Clone, PartialEq, Eq, Structural)]
pub enum ColorName {
    Grey,
    White,
    Yellow,
    Red,
    Magenta,
}

/// The color a message at the given level is painted in.
pub open spec fn color_of(l: LogLevel) -> ColorName {
    match l {
        LogLevel::Debug => ColorName::Grey,
        LogLevel::Info => ColorName::White,
        LogLevel::Warn => ColorName::Yellow,
        LogLevel::Error => ColorName::Red,
        LogLevel::Panic => ColorName::Magenta,
        LogLevel::Off => ColorName::Grey,
    }
}

/// The color a message at the given level is painted in.
pub fn color(level: &LogLevel) -> (r: ColorName)
    ensures
        r == color_of(*level),
{
    match level {
        LogLevel::Debug => ColorName::Grey,
        LogLevel::Info => ColorName::White,
        LogLevel::Warn => ColorName::Yellow,
        LogLevel::Error => ColorName::Red,
        LogLevel::Panic => ColorName::Magenta,
        LogLevel::Off => ColorName::Grey,
    }
}

/// The text printed after the timestamp for one log message.
pub fn log_line(msg: &str) -> (r: String)
    ensures
        r@ == " "@ + msg@ + "\n"@,
{
    let mut out = String::new();
    out.append(" ");
    out.append(msg);
    out.append("\n");
    proof {
        assert(out@ =~= " "@ + msg@ + "\n"@);
    }
    out
}

/// The decorated headline of a run header.
pub open spec fn header_text_of(msg: Seq<char>) -> Seq<char> {
    "=== "@ + msg + " ==="@
}

/// Decorates a message as a run headline.
pub fn header_text(msg: &str) -> (r: String)
    ensures
        r@ == header_text_of(msg@),
{
    let mut out = String::new();
    out.append("=== ");
    out.append(msg);
    out.append(" ===");
    proof {
        assert(out@ =~= header_text_of(msg@));
    }
    out
}

/// The underline drawn beneath a run headline: one underscore per headline
/// character.
pub fn header_underline(msg: &str) -> (r: String)
    ensures
        r@.len() == header_text_of(msg@).len(),
        forall|i: int| 0 <= i < r@.len() ==> r@[i] == '_',
{
    let head = header_text(msg);
    let n = head.as_str().unicode_len();
    let mut out = String::new();
    let mut i: usize = 0;
    while i < n
        invariant
            0 <= i <= n,
            out@.len() == i,
            forall|k: int| 0 <= k < i ==> out@[k] == '_',
        decreases n - i,
    {
        crate::strings::push_char(&mut out, '_');
        i = i + 1;
    }
    out
}

} // verus!
