//! How a module's health is watched and how often it is started again.
use crate::span::{duration_words, Span, NANOS_PER_MILLI, NANOS_PER_SEC};
use crate::text::{escape_debug, escaped};
use vstd::prelude::*;

verus! {

/// What follows from a module's health.
#[derive(Clone, Copy, Debug, PartialEq, Eq, Structural)]
pub enum HealthAction {
    Report,
    Restart,
    Alert,
}

/// How a module's health is watched.
#[derive(Clone, Copy, Debug)]
pub struct HealthConfig {
    pub cadence: Span,
    pub deadline: Span,
    pub failure_threshold: u32,
    pub on_degraded: HealthAction,
    pub on_failing: HealthAction,
    pub critical: bool,
}

/// A [`HealthConfig`] with its spans in nanoseconds.
pub struct HealthView {
    pub cadence: nat,
    pub deadline: nat,
    pub failure_threshold: u32,
    pub on_degraded: HealthAction,
    pub on_failing: HealthAction,
    pub critical: bool,
}

impl View for HealthConfig {
    type V = HealthView;

    open spec fn view(&self) -> HealthView {
        HealthView {
            cadence: self.cadence@,
            deadline: self.deadline@,
            failure_threshold: self.failure_threshold,
            on_degraded: self.on_degraded,
            on_failing: self.on_failing,
            critical: self.critical,
        }
    }
}

impl HealthConfig {
    /// Whether the two watch alike.
    pub fn equals(&self, other: &HealthConfig) -> (r: bool)
        ensures
            r == (self@ == other@),
    {
        self.cadence.equals(&other.cadence) && self.deadline.equals(&other.deadline)
            && self.failure_threshold == other.failure_threshold && self.on_degraded
            == other.on_degraded && self.on_failing == other.on_failing && self.critical
            == other.critical
    }
}

/// A health block as it stands in the file.
#[derive(Debug)]
pub struct RawHealthConfig {
    pub cadence_ms: Option<u64>,
    pub deadline_ms: Option<u64>,
    pub failure_threshold: Option<u32>,
    pub on_degraded: Option<HealthAction>,
    pub on_failing: Option<HealthAction>,
    pub critical: bool,
}

/// A number of milliseconds that may be left out but not be zero.
pub open spec fn millis_of(
    value: Option<u64>,
    default: nat,
    module_id: Seq<char>,
    field: Seq<char>,
) -> Result<nat, Seq<char>> {
    match value {
        Some(value) => if value == 0 {
            Err("module '"@ + module_id + "' health."@ + field + " must be positive"@)
        } else {
            Ok((value * NANOS_PER_MILLI) as nat)
        },
        None => Ok(default),
    }
}

/// Reads a number of milliseconds that may be left out but not be zero.
pub fn positive_millis(value: Option<u64>, default: Span, module_id: &str, field: &str) -> (r:
    Result<Span, String>)
    ensures
        r matches Ok(span) ==> millis_of(value, default@, module_id@, field@) == Ok::<_, Seq<char>>(
            span@,
        ),
        r matches Err(text) ==> millis_of(value, default@, module_id@, field@) == Err::<nat, _>(
            text@,
        ),
{
    match value {
        Some(value) => if value == 0 {
            Err(
                String::from_str("module '").concat(module_id).concat("' health.").concat(
                    field,
                ).concat(" must be positive"),
            )
        } else {
            Ok(Span::from_millis(value))
        },
        None => Ok(default),
    }
}

/// Why a degraded module is not restarted.
pub const ON_DEGRADED_RESTART_MESSAGE: &'static str =
    "' health.on_degraded may not be 'restart': a degraded module is slow-but-moving, so restarting it converts transient load into an outage. Use 'report' or 'alert' (Health-Path v2: only total wreckage or reported-unresponsiveness restarts).";

/// What a health block means, or what is wrong with it.
pub open spec fn health_of(
    raw: RawHealthConfig,
    defaults: HealthView,
    module_id: Seq<char>,
) -> Result<HealthView, Seq<char>> {
    match millis_of(raw.cadence_ms, defaults.cadence, module_id, "cadence_ms"@) {
        Err(text) => Err(text),
        Ok(cadence) => match millis_of(
            raw.deadline_ms,
            defaults.deadline,
            module_id,
            "deadline_ms"@,
        ) {
            Err(text) => Err(text),
            Ok(deadline) => if raw.failure_threshold == Some(0u32) {
                Err("module '"@ + module_id + "' health.failure_threshold must be positive"@)
            } else if raw.on_degraded == Some(HealthAction::Restart) {
                Err("module '"@ + module_id + ON_DEGRADED_RESTART_MESSAGE@)
            } else {
                Ok(
                    HealthView {
                        cadence,
                        deadline,
                        failure_threshold: match raw.failure_threshold {
                            Some(n) => n,
                            None => defaults.failure_threshold,
                        },
                        on_degraded: match raw.on_degraded {
                            Some(action) => action,
                            None => defaults.on_degraded,
                        },
                        on_failing: match raw.on_failing {
                            Some(action) => action,
                            None => defaults.on_failing,
                        },
                        critical: raw.critical,
                    },
                )
            },
        },
    }
}

/// Reads a health block.
pub fn parse_health_config(raw: &RawHealthConfig, defaults: &HealthConfig, module_id: &str) -> (r:
    Result<HealthConfig, String>)
    ensures
        r matches Ok(health) ==> health_of(*raw, defaults@, module_id@) == Ok::<_, Seq<char>>(
            health@,
        ),
        r matches Err(text) ==> health_of(*raw, defaults@, module_id@) == Err::<HealthView, _>(
            text@,
        ),
{
    let cadence: Span = match positive_millis(
        raw.cadence_ms,
        defaults.cadence,
        module_id,
        "cadence_ms",
    ) {
        Ok(span) => span,
        Err(text) => return Err(text),
    };
    let deadline: Span = match positive_millis(
        raw.deadline_ms,
        defaults.deadline,
        module_id,
        "deadline_ms",
    ) {
        Ok(span) => span,
        Err(text) => return Err(text),
    };
    let failure_threshold: u32 = match raw.failure_threshold {
        Some(n) => {
            if n == 0 {
                return Err(
                    String::from_str("module '").concat(module_id).concat(
                        "' health.failure_threshold must be positive",
                    ),
                );
            }
            n
        },
        None => defaults.failure_threshold,
    };
    let on_degraded: HealthAction = match raw.on_degraded {
        Some(action) => match action {
            HealthAction::Restart => return Err(
                String::from_str("module '").concat(module_id).concat(ON_DEGRADED_RESTART_MESSAGE),
            ),
            other => other,
        },
        None => defaults.on_degraded,
    };
    let on_failing: HealthAction = match raw.on_failing {
        Some(action) => action,
        None => defaults.on_failing,
    };
    Ok(
        HealthConfig {
            cadence,
            deadline,
            failure_threshold,
            on_degraded,
            on_failing,
            critical: raw.critical,
        },
    )
}

/// How often a module that crashed is started again, and how soon.
#[derive(Clone, Copy, Debug)]
pub struct RestartPolicy {
    /// Zero means that the module is never replaced.
    pub max_restarts: u32,
    pub backoff: Span,
    pub max_backoff: Span,
    /// The time over which restarts are counted.
    pub window: Span,
}

/// A [`RestartPolicy`] with its spans in nanoseconds.
pub struct RestartView {
    pub max_restarts: u32,
    pub backoff: nat,
    pub max_backoff: nat,
    pub window: nat,
}

impl View for RestartPolicy {
    type V = RestartView;

    open spec fn view(&self) -> RestartView {
        RestartView {
            max_restarts: self.max_restarts,
            backoff: self.backoff@,
            max_backoff: self.max_backoff@,
            window: self.window@,
        }
    }
}

/// Three restarts in ten minutes, the first after a tenth of a second, none later
/// than half a minute.
pub open spec fn default_restart() -> RestartView {
    RestartView {
        max_restarts: 3,
        backoff: (100 * NANOS_PER_MILLI) as nat,
        max_backoff: (30 * NANOS_PER_SEC) as nat,
        window: (600 * NANOS_PER_SEC) as nat,
    }
}

impl Default for RestartPolicy {
    fn default() -> (r: RestartPolicy)
        ensures
            r@ == default_restart(),
    {
        RestartPolicy {
            max_restarts: 3,
            backoff: Span::from_millis(100),
            max_backoff: Span::from_secs(30),
            window: Span::from_secs(600),
        }
    }
}

/// A restart block as it stands in the file.
#[derive(Debug)]
pub struct RawRestartConfig {
    pub max_restarts: Option<u32>,
    pub window_secs: Option<u64>,
    pub backoff_ms: Option<u64>,
    pub max_backoff_ms: Option<u64>,
}

/// Why a window of zero is refused: no restart is ever inside it, so the budget
/// would never be spent.
pub const RESTART_WINDOW_ZERO_MESSAGE: &'static str =
    "restart.window_secs must be greater than 0 (a zero window holds no crash, so the budget can never be spent; for effectively unlimited restarts set a deliberately large window_secs, and to stop restarting entirely set restart.max_restarts: 0)";

/// What the keys of a restart block mean, each on its own, the defaults standing
/// for those that are absent.
pub open spec fn restart_values(raw: RawRestartConfig) -> RestartView {
    RestartView {
        max_restarts: match raw.max_restarts {
            Some(n) => n,
            None => default_restart().max_restarts,
        },
        backoff: match raw.backoff_ms {
            Some(ms) => (ms * NANOS_PER_MILLI) as nat,
            None => default_restart().backoff,
        },
        max_backoff: match raw.max_backoff_ms {
            Some(ms) => (ms * NANOS_PER_MILLI) as nat,
            None => default_restart().max_backoff,
        },
        window: match raw.window_secs {
            Some(secs) => (secs * NANOS_PER_SEC) as nat,
            None => default_restart().window,
        },
    }
}

/// What a restart block means, or what is wrong with it.
pub open spec fn restart_of(raw: Option<RawRestartConfig>, module_id: Seq<char>) -> Result<
    RestartView,
    Seq<char>,
> {
    match raw {
        None => Ok(default_restart()),
        Some(raw) => {
            let values = restart_values(raw);
            if raw.window_secs == Some(0u64) {
                Err("module '"@ + escaped(module_id) + "' "@ + RESTART_WINDOW_ZERO_MESSAGE@)
            } else if values.max_backoff < values.backoff {
                Err(
                    "module '"@ + escaped(module_id)
                        + "' restart.max_backoff_ms must be greater than or equal to restart.backoff_ms (max_backoff_ms="@
                        + duration_words(values.max_backoff) + ", backoff_ms="@ + duration_words(
                        values.backoff,
                    ) + ")"@,
                )
            } else {
                Ok(values)
            }
        },
    }
}

/// Reads a restart block.
pub fn parse_restart_config(raw: &Option<RawRestartConfig>, module_id: &str) -> (r: Result<
    RestartPolicy,
    String,
>)
    ensures
        r matches Ok(restart) ==> restart_of(*raw, module_id@) == Ok::<_, Seq<char>>(restart@),
        r matches Err(text) ==> restart_of(*raw, module_id@) == Err::<RestartView, _>(text@),
{
    let defaults: RestartPolicy = RestartPolicy::default();
    let raw: &RawRestartConfig = match raw {
        None => return Ok(defaults),
        Some(raw) => raw,
    };
    let window: Span = match raw.window_secs {
        Some(secs) => {
            if secs == 0 {
                return Err(
                    String::from_str("module '").concat(escape_debug(module_id).as_str()).concat(
                        "' ",
                    ).concat(RESTART_WINDOW_ZERO_MESSAGE),
                );
            }
            Span::from_secs(secs)
        },
        None => defaults.window,
    };
    let backoff: Span = match raw.backoff_ms {
        Some(ms) => Span::from_millis(ms),
        None => defaults.backoff,
    };
    let max_backoff: Span = match raw.max_backoff_ms {
        Some(ms) => Span::from_millis(ms),
        None => defaults.max_backoff,
    };
    if max_backoff.as_nanos() < backoff.as_nanos() {
        return Err(
            String::from_str("module '").concat(escape_debug(module_id).as_str()).concat(
                "' restart.max_backoff_ms must be greater than or equal to restart.backoff_ms (max_backoff_ms=",
            ).concat(max_backoff.to_text().as_str()).concat(", backoff_ms=").concat(
                backoff.to_text().as_str(),
            ).concat(")"),
        );
    }
    let max_restarts: u32 = match raw.max_restarts {
        Some(n) => n,
        None => defaults.max_restarts,
    };
    Ok(RestartPolicy { max_restarts, backoff, max_backoff, window })
}

/// A module that is degraded is never restarted for it.
pub proof fn no_restart_of_a_degraded_module(
    raw: RawHealthConfig,
    defaults: HealthView,
    module_id: Seq<char>,
)
    requires
        defaults.on_degraded != HealthAction::Restart,
    ensures
        health_of(raw, defaults, module_id) matches Ok(health) ==> health.on_degraded
            != HealthAction::Restart,
{
}

/// A policy that was read has a window in which crashes can be counted, and waits
/// no longer than it says.
pub proof fn what_a_restart_block_holds(raw: Option<RawRestartConfig>, module_id: Seq<char>)
    ensures
        restart_of(raw, module_id) matches Ok(restart) ==> restart.window > 0 && restart.backoff
            <= restart.max_backoff,
{
}

} // verus!
