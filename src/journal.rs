use vstd::prelude::*;

use crate::config::{split, split_on};

verus! {

/// `log::SetLoggerError`, the error of installing a second logger; it is only
/// carried through.
#[verifier::external_type_specification]
#[verifier::external_body]
pub struct ExSetLoggerError(log::SetLoggerError);

/// The severity of a log message, most severe first.
#[derive(Clone, Copy, Debug, PartialEq, Eq, Structural)]
pub enum Level {
    Error,
    Warn,
    Info,
    Debug,
    Trace,
}

/// The rank of a level: the more verbose, the higher.
pub open spec fn rank(l: Level) -> int {
    match l {
        Level::Error => 1,
        Level::Warn => 2,
        Level::Info => 3,
        Level::Debug => 4,
        Level::Trace => 5,
    }
}

/// The priorities of the system journal.
#[derive(Clone, Copy, Debug, PartialEq, Eq, Structural)]
pub enum Priority {
    Emerg,
    Alert,
    Crit,
    Error,
    Warning,
    Notice,
    Info,
    Debug,
}

impl Priority {
    /// The number of the priority.
    pub open spec fn spec_code(self) -> i32 {
        match self {
            Priority::Emerg => 0,
            Priority::Alert => 1,
            Priority::Crit => 2,
            Priority::Error => 3,
            Priority::Warning => 4,
            Priority::Notice => 5,
            Priority::Info => 6,
            Priority::Debug => 7,
        }
    }

    /// The number that the journal knows the priority by.
    pub fn code(self) -> (r: i32)
        ensures
            r == self.spec_code(),
    {
        match self {
            Priority::Emerg => 0,
            Priority::Alert => 1,
            Priority::Crit => 2,
            Priority::Error => 3,
            Priority::Warning => 4,
            Priority::Notice => 5,
            Priority::Info => 6,
            Priority::Debug => 7,
        }
    }
}

/// The journal priority a message of a level is sent with.
pub open spec fn priority_for(l: Level) -> Priority {
    match l {
        Level::Error => Priority::Error,
        Level::Warn => Priority::Warning,
        Level::Info => Priority::Info,
        Level::Debug | Level::Trace => Priority::Debug,
    }
}

/// A logger that writes to the system journal the messages up to its level.
#[derive(Clone, Copy, Debug)]
pub struct JournalLogger {
    pub level: Level,
}

impl JournalLogger {
    /// A logger that writes the messages up to `level`.
    pub fn new(level: Level) -> (r: JournalLogger)
        ensures
            r.level == level,
    {
        JournalLogger { level }
    }

    /// Whether a message of `level` is written.
    pub fn enabled(&self, level: Level) -> (r: bool)
        ensures
            r == (rank(level) <= rank(self.level)),
    {
        level_rank(level) <= level_rank(self.level)
    }

    /// The journal priority of a message of `level`.
    pub fn priority(level: Level) -> (r: Priority)
        ensures
            r == priority_for(level),
    {
        match level {
            Level::Error => Priority::Error,
            Level::Warn => Priority::Warning,
            Level::Info => Priority::Info,
            Level::Debug => Priority::Debug,
            Level::Trace => Priority::Debug,
        }
    }
}

fn level_rank(l: Level) -> (r: u8)
    ensures
        r == rank(l),
{
    match l {
        Level::Error => 1,
        Level::Warn => 2,
        Level::Info => 3,
        Level::Debug => 4,
        Level::Trace => 5,
    }
}

/// `s` spells `name`, a word of lowercase ASCII letters, in any ASCII case.
pub open spec fn spells_ignoring_case(s: Seq<char>, name: Seq<char>) -> bool {
    &&& s.len() == name.len()
    &&& forall|i: int| 0 <= i < s.len() ==> s[i] == name[i] || s[i] as int + 32 == name[i] as int
}

/// The level that `s` names, in any ASCII case, if any.
pub open spec fn level_named(s: Seq<char>) -> Option<Level> {
    if spells_ignoring_case(s, seq!['e', 'r', 'r', 'o', 'r']) {
        Some(Level::Error)
    } else if spells_ignoring_case(s, seq!['w', 'a', 'r', 'n']) {
        Some(Level::Warn)
    } else if spells_ignoring_case(s, seq!['i', 'n', 'f', 'o']) {
        Some(Level::Info)
    } else if spells_ignoring_case(s, seq!['d', 'e', 'b', 'u', 'g']) {
        Some(Level::Debug)
    } else if spells_ignoring_case(s, seq!['t', 'r', 'a', 'c', 'e']) {
        Some(Level::Trace)
    } else {
        None
    }
}

/// Relies on `log::Level`'s `FromStr`: it accepts the name of a level in any
/// ASCII case, and nothing else.
#[verifier::external_body]
fn parse_level(s: &str) -> (r: Option<Level>)
    ensures
        r == level_named(s@),
{
    match s.parse::<log::Level>() {
        Ok(log::Level::Error) => Some(Level::Error),
        Ok(log::Level::Warn) => Some(Level::Warn),
        Ok(log::Level::Info) => Some(Level::Info),
        Ok(log::Level::Debug) => Some(Level::Debug),
        Ok(log::Level::Trace) => Some(Level::Trace),
        Err(_) => None,
    }
}

/// The level to log at, from the value of the level variable if it is set:
/// the level it names, else warnings.
pub fn log_level(var: Option<&str>) -> (r: Level)
    ensures
        r == match var {
            Some(s) => match level_named(s@) {
                Some(l) => l,
                None => Level::Warn,
            },
            None => Level::Warn,
        },
{
    match var {
        Some(s) => match parse_level(s) {
            Some(l) => l,
            None => Level::Warn,
        },
        None => Level::Warn,
    }
}

/// Relies on `log::set_max_level`, which sets the most verbose level that is
/// logged.
#[verifier::external_body]
fn set_max_level(level: Level) {
    log::set_max_level(
        match level {
            Level::Error => log::LevelFilter::Error,
            Level::Warn => log::LevelFilter::Warn,
            Level::Info => log::LevelFilter::Info,
            Level::Debug => log::LevelFilter::Debug,
            Level::Trace => log::LevelFilter::Trace,
        },
    );
}

/// Completes the start of the journal logger once `installed` tells how
/// installing it went: on success the most verbose level logged becomes
/// `level`; a failure is handed back as it is.
pub fn init_with_level(level: Level, installed: Result<(), log::SetLoggerError>) -> (r: Result<(), log::SetLoggerError>)
    ensures
        r is Ok <==> installed is Ok,
        installed is Err ==> r == installed,
{
    match installed {
        Ok(()) => {
            set_max_level(level);
            Ok(())
        },
        Err(e) => Err(e),
    }
}

/// Whether the variable that forces journal logging does so: its first
/// character is one of `1`, `y`, `Y`, `t`, `T`.
pub open spec fn forces_journal(var: Option<Seq<char>>) -> bool {
    match var {
        Some(s) => s.len() > 0 && (s[0] == '1' || s[0] == 'y' || s[0] == 'Y' || s[0] == 't' || s[0] == 'T'),
        None => false,
    }
}

/// Whether to log to the journal: where the force variable asks for it, or
/// where `journal_detected`.
pub fn use_journal(force: Option<&str>, journal_detected: bool) -> (r: bool)
    ensures
        r == (forces_journal(
            match force {
                Some(s) => Some(s@),
                None => None,
            },
        ) || journal_detected),
{
    let forced = match force {
        Some(s) => {
            if s.unicode_len() > 0 {
                let c = s.get_char(0);
                c == '1' || c == 'y' || c == 'Y' || c == 't' || c == 'T'
            } else {
                false
            }
        },
        None => false,
    };
    forced || journal_detected
}

/// What is left of a string once whitespace is taken from both ends.
pub uninterp spec fn trimmed(s: Seq<char>) -> Seq<char>;

/// Relies on `str::trim`, which removes leading and trailing whitespace.
#[verifier::external_body]
fn trim(s: &str) -> (r: &str)
    ensures
        r@ == trimmed(s@),
{
    s.trim()
}

/// An ASCII decimal digit.
pub open spec fn is_digit(c: char) -> bool {
    '0' <= c <= '9'
}

/// The value of a decimal digit.
pub open spec fn digit_of(c: char) -> nat {
    (c as nat - '0' as nat) as nat
}

/// The number that a string of decimal digits writes.
pub open spec fn digits_value(s: Seq<char>) -> nat
    decreases s.len(),
{
    if s.len() == 0 {
        0
    } else {
        digits_value(s.drop_last()) * 10 + digit_of(s.last())
    }
}

/// `s` without its leading `+`, if it has one.
pub open spec fn unsigned_part(s: Seq<char>) -> Seq<char> {
    if s.len() > 0 && s[0] == '+' {
        s.drop_first()
    } else {
        s
    }
}

/// The `u64` that `s` writes in decimal, with an optional leading `+`.
pub open spec fn decimal_of(s: Seq<char>) -> Option<u64> {
    let d = unsigned_part(s);
    if d.len() > 0 && (forall|i: int| 0 <= i < d.len() ==> is_digit(d[i])) && digits_value(d)
        <= u64::MAX {
        Some(digits_value(d) as u64)
    } else {
        None
    }
}

proof fn lemma_digits_value_grows(s: Seq<char>, k: int)
    requires
        0 <= k <= s.len(),
        forall|i: int| 0 <= i < s.len() ==> is_digit(s[i]),
    ensures
        digits_value(s.subrange(0, k)) <= digits_value(s),
    decreases s.len() - k,
{
    if k < s.len() {
        lemma_digits_value_grows(s, k + 1);
        assert(s.subrange(0, k + 1).drop_last() =~= s.subrange(0, k));
    } else {
        assert(s.subrange(0, k) =~= s);
    }
}

/// Reads a `u64` written in decimal, with an optional leading `+`; `None`
/// where `s` is anything else or the number does not fit.
pub fn parse_decimal(s: &str) -> (r: Option<u64>)
    ensures
        r == decimal_of(s@),
{
    let n = s.unicode_len();
    let mut start: usize = 0;
    if n > 0 && s.get_char(0) == '+' {
        start = 1;
    }
    let ghost d = unsigned_part(s@);
    assert(d =~= s@.subrange(start as int, n as int));
    if start == n {
        return None;
    }
    let mut value: u64 = 0;
    let mut i: usize = start;
    while i < n
        invariant
            start <= i <= n,
            n == s@.len(),
            d == s@.subrange(start as int, n as int),
            d == unsigned_part(s@),
            forall|k: int| start <= k < i ==> is_digit(s@[k]),
            value == digits_value(s@.subrange(start as int, i as int)),
        decreases n - i,
    {
        let c = s.get_char(i);
        assert(s@.subrange(start as int, i + 1).drop_last() =~= s@.subrange(start as int, i as int));
        if c < '0' || c > '9' {
            assert(d[i - start] == s@[i as int]);
            assert(!is_digit(d[i - start]));
            return None;
        }
        assert(digits_value(s@.subrange(start as int, i + 1)) == value * 10 + digit_of(c));
        let digit = (c as u32 - '0' as u32) as u64;
        assert(digit == digit_of(c));
        let next = match value.checked_mul(10) {
            Some(v) => v.checked_add(digit),
            None => None,
        };
        match next {
            Some(v) => {
                value = v;
            },
            None => {
                proof {
                    assert(value * 10 + digit > u64::MAX) by (nonlinear_arith)
                        requires
                            value.checked_mul(10) is None || (value * 10 <= u64::MAX && value * 10 + digit > u64::MAX),
                    {
                    }
                    if forall|k: int| 0 <= k < d.len() ==> is_digit(d[k]) {
                        lemma_digits_value_grows(d, i + 1 - start);
                        assert(d.subrange(0, i + 1 - start) =~= s@.subrange(start as int, i + 1));
                    }
                }
                return None;
            },
        }
        i = i + 1;
    }
    assert(s@.subrange(start as int, n as int) == d);
    Some(value)
}

/// The device and inode numbers that the journal stream variable names:
/// its first two `:`-separated fields, each trimmed and read in decimal.
pub open spec fn stream_ids(s: Seq<char>) -> Option<(u64, u64)> {
    let fields = split_on(s, ':');
    if fields.len() >= 2 {
        match (decimal_of(trimmed(fields[0])), decimal_of(trimmed(fields[1]))) {
            (Some(dev), Some(ino)) => Some((dev, ino)),
            _ => None,
        }
    } else {
        None
    }
}

/// Whether standard error or standard output is the journal stream that
/// the variable names; `stderr` and `stdout` are their device and inode
/// numbers, where they could be read.
pub fn has_journal(journal_stream: Option<&str>, stderr: Option<(u64, u64)>, stdout: Option<(u64, u64)>) -> (r: bool)
    ensures
        r == match journal_stream {
            Some(s) => match stream_ids(s@) {
                Some(ids) => stderr == Some(ids) || stdout == Some(ids),
                None => false,
            },
            None => false,
        },
{
    let s = match journal_stream {
        Some(s) => s,
        None => return false,
    };
    let fields = split(s, ':');
    if fields.len() < 2 {
        return false;
    }
    assert(fields.deep_view()[0] == fields@[0]@);
    assert(fields.deep_view()[1] == fields@[1]@);
    let dev = match parse_decimal(trim(fields[0].as_str())) {
        Some(v) => v,
        None => return false,
    };
    let ino = match parse_decimal(trim(fields[1].as_str())) {
        Some(v) => v,
        None => return false,
    };
    let matches_ids = |id: Option<(u64, u64)>| -> (b: bool)
        ensures
            b == (id == Some((dev, ino))),
        {
            match id {
                Some((d, i)) => d == dev && i == ino,
                None => false,
            }
        };
    matches_ids(stderr) || matches_ids(stdout)
}

} // verus!
