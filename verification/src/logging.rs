//! The logger sink: level filtering, target-prefix filtering, and the
//! optional syslog-style priority prefix.
//!
//! The sink itself is pure: it decides whether a record is emitted and
//! renders the exact line that must reach the output stream.  The embedding
//! program owns the locked writer and hands every rendered line to it whole.
use vstd::prelude::*;

verus! {

/// Severity of a single log record, most severe first.  `Debug` and
/// `Trace` are equal verbosity for filtering purposes.
#[derive(Clone, Copy, PartialEq, Eq, Structural, Debug)]
pub enum Level {
    Error,
    Warn,
    Info,
    Debug,
    Trace,
}

/// Verbosity ceiling a logger is configured with.  `Off` admits nothing;
/// `Trace` admits everything.
#[derive(Clone, Copy, PartialEq, Eq, Structural, Debug)]
pub enum LevelFilter {
    Off,
    Error,
    Warn,
    Info,
    Debug,
    Trace,
}

/// Numeric verbosity of a level: lower means more severe.  `Debug` and
/// `Trace` share a rank: they are equal verbosity for filtering purposes.
pub open spec fn level_rank(level: Level) -> int {
    match level {
        Level::Error => 1,
        Level::Warn => 2,
        Level::Info => 3,
        Level::Debug => 4,
        Level::Trace => 4,
    }
}

/// Numeric verbosity ceiling of a filter, on the same scale as
/// `level_rank`: the `Debug` and `Trace` ceilings admit the same records.
pub open spec fn filter_rank(filter: LevelFilter) -> int {
    match filter {
        LevelFilter::Off => 0,
        LevelFilter::Error => 1,
        LevelFilter::Warn => 2,
        LevelFilter::Info => 3,
        LevelFilter::Debug => 4,
        LevelFilter::Trace => 4,
    }
}

/// A record at `level` passes a `filter` iff it is at least as severe as the
/// configured ceiling.
pub open spec fn spec_level_enabled(level: Level, filter: LevelFilter) -> bool {
    level_rank(level) <= filter_rank(filter)
}

fn level_rank_exec(level: Level) -> (r: u8)
    ensures
        r == level_rank(level),
{
    match level {
        Level::Error => 1,
        Level::Warn => 2,
        Level::Info => 3,
        Level::Debug => 4,
        Level::Trace => 4,
    }
}

fn filter_rank_exec(filter: LevelFilter) -> (r: u8)
    ensures
        r == filter_rank(filter),
{
    match filter {
        LevelFilter::Off => 0,
        LevelFilter::Error => 1,
        LevelFilter::Warn => 2,
        LevelFilter::Info => 3,
        LevelFilter::Debug => 4,
        LevelFilter::Trace => 4,
    }
}

/// Decide whether a record at `level` passes the verbosity ceiling `filter`.
pub fn level_enabled(level: Level, filter: LevelFilter) -> (r: bool)
    ensures
        r == spec_level_enabled(level, filter),
{
    level_rank_exec(level) <= filter_rank_exec(filter)
}

/// The syslog-style priority prefix for a record at `level`, empty when the
/// prefix is disabled.  The severity `Info` maps to the syslog notice
/// level and both `Debug` and `Trace` map to the syslog debug level, which
/// has no finer grade.
pub open spec fn spec_priority_prefix(level: Level, with_priority: bool) -> Seq<char> {
    if with_priority {
        match level {
            Level::Error => seq!['<', '3', '>', ' '],
            Level::Warn => seq!['<', '4', '>', ' '],
            Level::Info => seq!['<', '5', '>', ' '],
            Level::Debug => seq!['<', '7', '>', ' '],
            Level::Trace => seq!['<', '7', '>', ' '],
        }
    } else {
        Seq::empty()
    }
}

/// `t` starts with `prefix`.
pub open spec fn spec_starts_with(t: Seq<char>, prefix: Seq<char>) -> bool {
    prefix.len() <= t.len() && t.subrange(0, prefix.len() as int) == prefix
}

/// Decide whether `s` starts with `prefix`, character by character.
pub fn str_starts_with(s: &str, prefix: &str) -> (r: bool)
    ensures
        r == spec_starts_with(s@, prefix@),
{
    let s_len = s.unicode_len();
    let p_len = prefix.unicode_len();
    if p_len > s_len {
        return false;
    }
    let mut i: usize = 0;
    while i < p_len
        invariant
            0 <= i <= p_len,
            p_len == prefix@.len(),
            s_len == s@.len(),
            p_len <= s_len,
            forall|j: int| 0 <= j < i ==> s@[j] == prefix@[j],
        decreases p_len - i,
    {
        if s.get_char(i) != prefix.get_char(i) {
            proof {
                assert(s@.subrange(0, prefix@.len() as int)[i as int] == s@[i as int]);
            }
            return false;
        }
        i = i + 1;
    }
    proof {
        assert(s@.subrange(0, prefix@.len() as int) =~= prefix@);
    }
    true
}

/// Law: once a record's target passes the filter, emission is decided by
/// severity alone — the record goes out iff it is at least as severe as the
/// configured ceiling.
pub proof fn lemma_level_gate(logger: Logger, level: Level, target: Seq<char>)
    requires
        spec_starts_with(target, logger.spec_target_filter()),
    ensures
        logger.spec_emits(level, target) <==> spec_level_enabled(level, logger.spec_level()),
{
}

/// Law: once a record's severity passes the ceiling, emission is decided by
/// the target alone — the record goes out iff its target starts with the
/// configured filter string.
pub proof fn lemma_target_gate(logger: Logger, level: Level, target: Seq<char>)
    requires
        spec_level_enabled(level, logger.spec_level()),
    ensures
        logger.spec_emits(level, target) <==> spec_starts_with(target, logger.spec_target_filter()),
{
}

/// Law: an empty target filter admits every target, so emission is then
/// decided by severity alone.
pub proof fn lemma_empty_filter_admits_all(logger: Logger, level: Level, target: Seq<char>)
    requires
        logger.spec_target_filter() == Seq::<char>::empty(),
    ensures
        logger.spec_emits(level, target) <==> spec_level_enabled(level, logger.spec_level()),
{
    assert(target.subrange(0, 0) =~= Seq::<char>::empty());
}

/// Law: a rendered line is one whole line.  When the message holds no
/// newline, the line's only newline is its last character, so lines written
/// whole can never run into one another.
pub proof fn lemma_rendered_line_whole(level: Level, with_priority: bool, message: Seq<char>)
    requires
        forall|i: int| 0 <= i < message.len() ==> message[i] != '\n',
    ensures
        ({
            let line = spec_priority_prefix(level, with_priority) + message + seq!['\n'];
            &&& line.len() > 0
            &&& line[line.len() - 1] == '\n'
            &&& forall|i: int| 0 <= i < line.len() - 1 ==> line[i] != '\n'
        }),
{
    let prefix = spec_priority_prefix(level, with_priority);
    let line = prefix + message + seq!['\n'];
    assert forall|i: int| 0 <= i < line.len() - 1 implies line[i] != '\n' by {
        if i < prefix.len() {
            assert(line[i] == prefix[i]);
        } else {
            assert(line[i] == message[i - prefix.len()]);
        }
    }
}

/// What CLI options must offer so a logger sink can be configured from them.
pub trait LogOptions {
    /// Lead every emitted line with a syslog priority prefix, so a system
    /// log collector can record it at the matching level.  Off unless the
    /// options ask for it.
    fn include_systemd_level(&self) -> (r: bool)
        default_ensures
            r == false,
    {
        false
    }

    /// Only records whose target starts with this prefix are emitted.  An
    /// empty prefix admits every record.
    fn target_filter(&self) -> String;

    /// Records less severe than this ceiling are not emitted.
    fn max_log_level(&self) -> LevelFilter;
}

/// What a log record's producer declares about it before the message exists.
pub struct Metadata {
    /// Severity of the record.
    pub level: Level,
    /// Origin tag of the record, usually a module path.
    pub target: String,
}

/// One log record, with its message already rendered to text.
pub struct Record {
    /// Severity of the record.
    pub level: Level,
    /// Origin tag of the record, usually a module path.
    pub target: String,
    /// The message body, without a trailing newline.
    pub message: String,
}

/// The logger sink's configuration and line discipline.
///
/// The sink is immutable after construction.  It owns no writer here: it
/// decides and renders, and the embedding program writes each rendered line
/// to the locked output stream in one piece.
pub struct Logger {
    level: LevelFilter,
    target_filter: String,
    include_systemd_level: bool,
}

impl Logger {
    /// The configured verbosity ceiling.
    pub closed spec fn spec_level(self) -> LevelFilter {
        self.level
    }

    /// The configured target prefix.
    pub closed spec fn spec_target_filter(self) -> Seq<char> {
        self.target_filter@
    }

    /// Whether emitted lines lead with a priority prefix.
    pub closed spec fn spec_include_systemd_level(self) -> bool {
        self.include_systemd_level
    }

    /// A record with this level and target is emitted iff it passes both the
    /// verbosity ceiling and the target-prefix filter.
    pub open spec fn spec_emits(self, level: Level, target: Seq<char>) -> bool {
        spec_level_enabled(level, self.spec_level())
            && spec_starts_with(target, self.spec_target_filter())
    }

    /// Construct a sink from its three configuration values.
    pub fn new(level: LevelFilter, target_filter: String, include_systemd_level: bool) -> (r:
        Logger)
        ensures
            r.spec_level() == level,
            r.spec_target_filter() == target_filter@,
            r.spec_include_systemd_level() == include_systemd_level,
    {
        Logger { level, target_filter, include_systemd_level }
    }

    /// A record is eligible iff its severity passes the configured ceiling.
    pub fn enabled(&self, metadata: &Metadata) -> (r: bool)
        ensures
            r == spec_level_enabled(metadata.level, self.spec_level()),
    {
        level_enabled(metadata.level, self.level)
    }

    /// The priority prefix this sink puts before `record`'s message: the
    /// syslog table when the prefix is on, the empty string when it is off.
    pub fn systemd_level(&self, record: &Record) -> (r: &'static str)
        ensures
            r@ == spec_priority_prefix(record.level, self.spec_include_systemd_level()),
    {
        if self.include_systemd_level {
            match record.level {
                Level::Error => {
                    proof {
                        reveal_strlit("<3> ");
                    }
                    let r = "<3> ";
                    proof {
                        assert(r@ =~= spec_priority_prefix(record.level, true));
                    }
                    r
                },
                Level::Warn => {
                    proof {
                        reveal_strlit("<4> ");
                    }
                    let r = "<4> ";
                    proof {
                        assert(r@ =~= spec_priority_prefix(record.level, true));
                    }
                    r
                },
                Level::Info => {
                    proof {
                        reveal_strlit("<5> ");
                    }
                    let r = "<5> ";
                    proof {
                        assert(r@ =~= spec_priority_prefix(record.level, true));
                    }
                    r
                },
                Level::Debug | Level::Trace => {
                    proof {
                        reveal_strlit("<7> ");
                    }
                    let r = "<7> ";
                    proof {
                        assert(r@ =~= spec_priority_prefix(record.level, true));
                    }
                    r
                },
            }
        } else {
            proof {
                reveal_strlit("");
            }
            let r = "";
            proof {
                assert(r@ =~= spec_priority_prefix(record.level, false));
            }
            r
        }
    }

    /// Decide whether `record` is emitted and, when it is, render the exact
    /// line that must reach the output: priority prefix, message, newline.
    pub fn render(&self, record: &Record) -> (r: Option<String>)
        ensures
            r is Some <==> self.spec_emits(record.level, record.target@),
            r matches Some(line) ==> line@ == spec_priority_prefix(
                record.level,
                self.spec_include_systemd_level(),
            ) + record.message@ + seq!['\n'],
    {
        if level_enabled(record.level, self.level) && str_starts_with(
            record.target.as_str(),
            self.target_filter.as_str(),
        ) {
            let prefix = self.systemd_level(record);
            let mut line = prefix.to_owned();
            line.append(record.message.as_str());
            line.append("\n");
            proof {
                reveal_strlit("\n");
                assert("\n"@ =~= seq!['\n']);
            }
            Some(line)
        } else {
            None
        }
    }
}

} // verus!
