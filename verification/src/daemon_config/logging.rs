//! Logging, as the configuration states it.
use crate::key_order::{by_key, by_key_holds_the_latest_in_order, in_key_order, keys_of};
use crate::problems::{first_problem, passes_on, problem_found};
use crate::text::{
    before, contains_char, copy_pairs, join, joined, pairs, quote_debug, quoted, same, texts,
};
use vstd::prelude::*;

verus! {

/// How the capture of a module's error output is rotated.
#[derive(Clone, Copy, Debug, PartialEq, Eq, Structural)]
pub struct Retention {
    pub max_file_mb: u32,
    pub keep: u8,
    pub max_age_days: u32,
}

/// How long the day segments of a log are kept, and from which size on a segment
/// alarms.
#[derive(Clone, Copy, Debug, PartialEq, Eq, Structural)]
pub struct SegmentRetention {
    pub max_age_days: u32,
    pub alarm_segment_mb: u32,
}

/// What an absent logging key means.
#[derive(Clone, Copy, Debug, PartialEq, Eq, Structural)]
pub struct LoggingDefaults {
    pub retention: Retention,
    pub alarm_segment_mb: u32,
}

/// A logging block as it stands in the file.
#[derive(Debug)]
pub struct RawLoggingConfig {
    pub level: Option<String>,
    pub tags: Vec<(String, String)>,
    pub alarm_segment_mb: Option<u32>,
    pub max_file_mb: Option<u32>,
    pub keep: Option<u8>,
    pub max_age_days: Option<u32>,
}

/// The logging policy of the daemon or of a module.
#[derive(Debug)]
pub struct LoggingConfig {
    pub level: String,
    /// The level of each logger, in the order of the loggers' names. A name
    /// without a dot is a component of the module that it is configured on.
    pub tags: Vec<(String, String)>,
    pub retention: Retention,
    /// The size at which a segment alarms. It is never truncated.
    pub alarm_segment_mb: u32,
}

/// A [`LoggingConfig`] over characters.
#[verifier::ext_equal]
pub struct LoggingView {
    pub level: Seq<char>,
    pub tags: Seq<(Seq<char>, Seq<char>)>,
    pub retention: Retention,
    pub alarm_segment_mb: u32,
}

impl View for LoggingConfig {
    type V = LoggingView;

    open spec fn view(&self) -> LoggingView {
        LoggingView {
            level: self.level@,
            tags: pairs(self.tags@),
            retention: self.retention,
            alarm_segment_mb: self.alarm_segment_mb,
        }
    }
}

/// One of the six levels.
pub open spec fn valid_level(level: Seq<char>) -> bool {
    level == "off"@ || level == "error"@ || level == "warn"@ || level == "info"@ || level
        == "debug"@ || level == "trace"@
}

fn is_level(level: &str) -> (r: bool)
    ensures
        r == valid_level(level@),
{
    same(level, "off") || same(level, "error") || same(level, "warn") || same(level, "info")
        || same(level, "debug") || same(level, "trace")
}

/// A letter that a name can begin with.
pub open spec fn lower(c: char) -> bool {
    'a' <= c && c <= 'z'
}

/// A decimal digit.
pub open spec fn numeral(c: char) -> bool {
    '0' <= c && c <= '9'
}

/// The character at `i` can stand there in a logger's name: a letter at the start
/// and after a dot, elsewhere also a digit, a hyphen or a dot.
pub open spec fn fits_name(s: Seq<char>, i: int) -> bool {
    lower(s[i]) || (i > 0 && s[i - 1] != '.' && (numeral(s[i]) || s[i] == '-' || s[i] == '.'))
}

/// A logger's name: segments with dots between them, each of a letter and then
/// letters, digits and hyphens.
pub open spec fn logger_name(s: Seq<char>) -> bool {
    s.len() > 0 && s.last() != '.' && forall|i: int| 0 <= i < s.len() ==> #[trigger] fits_name(s, i)
}

fn is_logger_name(s: &str) -> (r: bool)
    ensures
        r == logger_name(s@),
{
    let n: usize = s.unicode_len();
    if n == 0 {
        return false;
    }
    if s.get_char(n - 1) == '.' {
        return false;
    }
    let mut i: usize = 0;
    let mut after_dot: bool = true;
    while i < n
        invariant
            i <= n,
            n == s@.len(),
            after_dot == (i == 0 || s@[i - 1] == '.'),
            forall|j: int| 0 <= j < i ==> #[trigger] fits_name(s@, j),
        decreases n - i,
    {
        let c: char = s.get_char(i);
        let letter: bool = 'a' <= c && c <= 'z';
        let fits: bool = letter || (!after_dot && (('0' <= c && c <= '9') || c == '-' || c == '.'));
        if !fits {
            proof {
                assert(!fits_name(s@, i as int));
            }
            return false;
        }
        after_dot = c == '.';
        i += 1;
    }
    true
}

/// What is wrong with a tag of the block of `owner`.
pub open spec fn tag_problem(owner: Seq<char>, tag: (Seq<char>, Seq<char>)) -> Option<Seq<char>> {
    if !logger_name(tag.0) {
        Some(
            owner + ".tags key "@ + quoted(tag.0)
                + " is not a logger name (dotted segments of [a-z][a-z0-9-]*)"@,
        )
    } else if !valid_level(tag.1) {
        Some(
            owner + ".tags."@ + tag.0
                + " must be one of off, error, warn, info, debug, trace; got "@ + quoted(tag.1),
        )
    } else {
        None
    }
}

/// The rule for the tags of the block of `owner`.
pub open spec fn tag_rule(owner: Seq<char>) -> spec_fn((Seq<char>, Seq<char>)) -> Option<
    Seq<char>,
> {
    |tag: (Seq<char>, Seq<char>)| tag_problem(owner, tag)
}

/// The value, or what stands for an absent one.
pub open spec fn value_or<A>(value: Option<A>, default: A) -> A {
    match value {
        Some(value) => value,
        None => default,
    }
}

/// The level of a block: `info` where it states none.
pub open spec fn level_of(raw: RawLoggingConfig) -> Seq<char> {
    match raw.level {
        Some(level) => level@,
        None => "info"@,
    }
}

/// How the capture of a block is rotated.
pub open spec fn retention_of(raw: RawLoggingConfig, defaults: LoggingDefaults) -> Retention {
    Retention {
        max_file_mb: value_or(raw.max_file_mb, defaults.retention.max_file_mb),
        keep: value_or(raw.keep, defaults.retention.keep),
        max_age_days: value_or(raw.max_age_days, defaults.retention.max_age_days),
    }
}

/// What a logging block means, or what is wrong with it. `owner` is what a
/// message calls the block.
pub open spec fn logging_of(
    raw: RawLoggingConfig,
    defaults: LoggingDefaults,
    owner: Seq<char>,
) -> Result<LoggingView, Seq<char>> {
    let level = level_of(raw);
    let tags = pairs(by_key(raw.tags@));
    let retention = retention_of(raw, defaults);
    let alarm_segment_mb = value_or(raw.alarm_segment_mb, defaults.alarm_segment_mb);
    if !valid_level(level) {
        Err(
            owner + ".level must be one of off, error, warn, info, debug, trace; got "@ + quoted(
                level,
            ),
        )
    } else {
        match first_problem(tags, tag_rule(owner)) {
            Some(problem) => Err(problem),
            None => if retention.max_file_mb == 0 {
                Err(owner + ".max_file_mb must be greater than 0"@)
            } else if alarm_segment_mb == 0 {
                Err(owner + ".alarm_segment_mb must be greater than 0"@)
            } else {
                Ok(LoggingView { level, tags, retention, alarm_segment_mb })
            },
        }
    }
}

fn check_tag(owner: &str, tag: &(String, String)) -> (r: Option<String>)
    ensures
        r is Some <==> tag_problem(owner@, (tag.0@, tag.1@)) is Some,
        r matches Some(text) ==> tag_problem(owner@, (tag.0@, tag.1@)) == Some(text@),
{
    if !is_logger_name(tag.0.as_str()) {
        return Some(
            String::from_str(owner).concat(".tags key ").concat(
                quote_debug(tag.0.as_str()).as_str(),
            ).concat(" is not a logger name (dotted segments of [a-z][a-z0-9-]*)"),
        );
    }
    if !is_level(tag.1.as_str()) {
        return Some(
            String::from_str(owner).concat(".tags.").concat(tag.0.as_str()).concat(
                " must be one of off, error, warn, info, debug, trace; got ",
            ).concat(quote_debug(tag.1.as_str()).as_str()),
        );
    }
    None
}

fn check_tags(owner: &str, tags: &Vec<(String, String)>) -> (r: Option<String>)
    ensures
        r is Some <==> first_problem(pairs(tags@), tag_rule(owner@)) is Some,
        r matches Some(text) ==> first_problem(pairs(tags@), tag_rule(owner@)) == Some(text@),
{
    let ghost all = pairs(tags@);
    let ghost rule = tag_rule(owner@);
    let mut i: usize = 0;
    while i < tags.len()
        invariant
            i <= tags.len(),
            all == pairs(tags@),
            rule == tag_rule(owner@),
            first_problem(all.take(i as int), rule) is None,
        decreases tags.len() - i,
    {
        let problem: Option<String> = check_tag(owner, &tags[i]);
        proof {
            assert(rule(all[i as int]) == tag_problem(owner@, (tags@[i as int].0@, tags@[i as int].1@)));
        }
        if problem.is_some() {
            proof {
                problem_found(all, rule, i as int);
            }
            return problem;
        }
        proof {
            passes_on(all, rule, i as int);
        }
        i += 1;
    }
    proof {
        assert(all.take(i as int) =~= all);
    }
    None
}

/// Reads a logging block. `owner` is what a message calls the block.
pub fn parse_logging_config(
    raw: &RawLoggingConfig,
    defaults: &LoggingDefaults,
    owner: &str,
) -> (r: Result<LoggingConfig, String>)
    ensures
        r matches Ok(log) ==> logging_of(*raw, *defaults, owner@) == Ok::<_, Seq<char>>(log@),
        r matches Err(text) ==> logging_of(*raw, *defaults, owner@) == Err::<LoggingView, _>(
            text@,
        ),
{
    let level: String = match &raw.level {
        Some(level) => level.clone(),
        None => String::from_str("info"),
    };
    if !is_level(level.as_str()) {
        return Err(
            String::from_str(owner).concat(
                ".level must be one of off, error, warn, info, debug, trace; got ",
            ).concat(quote_debug(level.as_str()).as_str()),
        );
    }
    let tags: Vec<(String, String)> = in_key_order(copy_pairs(&raw.tags));
    if let Some(problem) = check_tags(owner, &tags) {
        return Err(problem);
    }
    let retention = Retention {
        max_file_mb: raw.max_file_mb.unwrap_or(defaults.retention.max_file_mb),
        keep: raw.keep.unwrap_or(defaults.retention.keep),
        max_age_days: raw.max_age_days.unwrap_or(defaults.retention.max_age_days),
    };
    if retention.max_file_mb == 0 {
        return Err(String::from_str(owner).concat(".max_file_mb must be greater than 0"));
    }
    let alarm_segment_mb: u32 = raw.alarm_segment_mb.unwrap_or(defaults.alarm_segment_mb);
    if alarm_segment_mb == 0 {
        return Err(String::from_str(owner).concat(".alarm_segment_mb must be greater than 0"));
    }
    Ok(LoggingConfig { level, tags, retention, alarm_segment_mb })
}

/// A tag as the logger reads it: its name stands for itself where it is the
/// module's own or holds a dot, and for a component of the module elsewhere.
pub open spec fn directive(tag: (Seq<char>, Seq<char>), module_id: Seq<char>) -> Seq<char> {
    if tag.0 == module_id || tag.0.contains('.') {
        tag.0 + "="@ + tag.1
    } else {
        module_id + "."@ + tag.0 + "="@ + tag.1
    }
}

/// The level and the tags of a module, in that order.
pub open spec fn directives(log: LoggingView, module_id: Seq<char>) -> Seq<Seq<char>> {
    seq![log.level] + log.tags.map_values(
        |tag: (Seq<char>, Seq<char>)| directive(tag, module_id),
    )
}

/// The filter that a module's logger is started with.
pub open spec fn filter_of(log: LoggingView, module_id: Seq<char>) -> Seq<char> {
    joined(directives(log, module_id), ","@)
}

fn directive_text(tag: &(String, String), module_id: &str) -> (r: String)
    ensures
        r@ == directive((tag.0@, tag.1@), module_id@),
{
    if same(tag.0.as_str(), module_id) || contains_char(tag.0.as_str(), '.') {
        tag.0.clone().concat("=").concat(tag.1.as_str())
    } else {
        String::from_str(module_id).concat(".").concat(tag.0.as_str()).concat("=").concat(
            tag.1.as_str(),
        )
    }
}

impl LoggingConfig {
    /// A copy of the policy.
    pub fn copy(&self) -> (r: LoggingConfig)
        ensures
            r@ == self@,
    {
        LoggingConfig {
            level: self.level.clone(),
            tags: copy_pairs(&self.tags),
            retention: self.retention,
            alarm_segment_mb: self.alarm_segment_mb,
        }
    }

    /// The filter that the logger of `module_id` is started with.
    pub fn filter_spec(&self, module_id: &str) -> (r: String)
        ensures
            r@ == filter_of(self@, module_id@),
    {
        let mut parts: Vec<String> = Vec::new();
        parts.push(self.level.clone());
        let ghost all = directives(self@, module_id@);
        proof {
            assert(texts(parts@) =~= all.take(1));
        }
        let mut i: usize = 0;
        while i < self.tags.len()
            invariant
                i <= self.tags.len(),
                all == directives(self@, module_id@),
                texts(parts@) == all.take(i + 1),
            decreases self.tags.len() - i,
        {
            let ghost was = parts@;
            parts.push(directive_text(&self.tags[i], module_id));
            proof {
                assert(all[i + 1] == directive(
                    (self.tags@[i as int].0@, self.tags@[i as int].1@),
                    module_id@,
                ));
                assert(texts(parts@) =~= texts(was).push(all[i + 1]));
                assert(all.take(i + 2) =~= all.take(i + 1).push(all[i + 1]));
            }
            i += 1;
        }
        proof {
            assert(all.take(i + 1) =~= all);
        }
        join(&parts, ",")
    }

    /// What of the policy applies to day segments.
    pub fn segment_retention(&self) -> (r: SegmentRetention)
        ensures
            r.max_age_days == self.retention.max_age_days,
            r.alarm_segment_mb == self.alarm_segment_mb,
    {
        SegmentRetention {
            max_age_days: self.retention.max_age_days,
            alarm_segment_mb: self.alarm_segment_mb,
        }
    }
}

/// A policy that was read holds a known level, logger names in their order with a known
/// level for each, and no limit of zero.
pub proof fn what_a_logging_block_holds(
    raw: RawLoggingConfig,
    defaults: LoggingDefaults,
    owner: Seq<char>,
)
    ensures
        logging_of(raw, defaults, owner) matches Ok(log) ==> {
            &&& valid_level(log.level)
            &&& log.retention.max_file_mb > 0
            &&& log.alarm_segment_mb > 0
            &&& forall|i: int|
                0 <= i < log.tags.len() ==> logger_name((#[trigger] log.tags[i]).0) && valid_level(
                    log.tags[i].1,
                )
            &&& forall|i: int, j: int|
                0 <= i < j < log.tags.len() ==> before(
                    (#[trigger] log.tags[i]).0,
                    (#[trigger] log.tags[j]).0,
                )
        },
{
    crate::problems::no_problem_means_all_pass(pairs(by_key(raw.tags@)), tag_rule(owner));
    if let Ok(log) = logging_of(raw, defaults, owner) {
        by_key_holds_the_latest_in_order(raw.tags@);
        let keys = keys_of(by_key(raw.tags@));
        assert forall|i: int, j: int| 0 <= i < j < log.tags.len() implies before(
            (#[trigger] log.tags[i]).0,
            (#[trigger] log.tags[j]).0,
        ) by {
            assert(keys[i] == log.tags[i].0 && keys[j] == log.tags[j].0);
        }
        assert forall|i: int| 0 <= i < log.tags.len() implies logger_name((#[trigger] log.tags[i]).0)
            && valid_level(log.tags[i].1) by {
            assert(tag_rule(owner)(log.tags[i]) is None);
        }
    }
}

} // verus!
