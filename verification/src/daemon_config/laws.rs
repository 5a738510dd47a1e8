//! What holds of every module's settings, stated on the fields of the file's
//! records.
pub mod documents;
pub mod validations;

use crate::daemon_config::logging::filter_of;
use crate::daemon_config::module::{
    logging_key, logging_variables, other_variables, ConfiguredModule, ModuleSpec,
};
use crate::daemon_config::policy::{
    parse_health_config, parse_restart_config, HealthAction, HealthConfig, RawHealthConfig,
    RawRestartConfig, RestartPolicy,
};
use crate::paths::one_path;
use crate::span::duration_words;
use crate::text::{decimal, escaped, pairs, texts};
use vstd::prelude::*;

verus! {

/// Each health key stands for itself: left out, its setting is the default of the
/// same name; given, it is the value given, in milliseconds where it is a time.
pub proof fn each_health_key_stands_for_itself(
    raw: &RawHealthConfig,
    defaults: &HealthConfig,
    module_id: &str,
    r: Result<HealthConfig, String>,
)
    requires
        call_ensures(parse_health_config, (raw, defaults, module_id), r),
        r is Ok,
    ensures
        raw.cadence_ms is None ==> r->Ok_0.cadence@ == defaults.cadence@,
        raw.cadence_ms matches Some(ms) ==> r->Ok_0.cadence@ == ms * 1_000_000,
        raw.deadline_ms is None ==> r->Ok_0.deadline@ == defaults.deadline@,
        raw.deadline_ms matches Some(ms) ==> r->Ok_0.deadline@ == ms * 1_000_000,
        raw.failure_threshold is None ==> r->Ok_0.failure_threshold == defaults.failure_threshold,
        raw.failure_threshold matches Some(n) ==> r->Ok_0.failure_threshold == n,
        raw.on_degraded is None ==> r->Ok_0.on_degraded == defaults.on_degraded,
        raw.on_degraded matches Some(action) ==> r->Ok_0.on_degraded == action,
        raw.on_failing is None ==> r->Ok_0.on_failing == defaults.on_failing,
        raw.on_failing matches Some(action) ==> r->Ok_0.on_failing == action,
        r->Ok_0.critical == raw.critical,
{
}

/// A health block is refused for a time or a threshold of zero and for a restart of
/// a degraded module, by the first of them, and for nothing else.
pub proof fn a_health_block_is_refused_for_its_first_fault(
    raw: &RawHealthConfig,
    defaults: &HealthConfig,
    module_id: &str,
    r: Result<HealthConfig, String>,
)
    requires
        call_ensures(parse_health_config, (raw, defaults, module_id), r),
    ensures
        r is Ok <==> raw.cadence_ms != Some(0u64) && raw.deadline_ms != Some(0u64)
            && raw.failure_threshold != Some(0u32) && raw.on_degraded != Some(
            HealthAction::Restart,
        ),
        raw.cadence_ms == Some(0u64) ==> r is Err && r->Err_0@ == "module '"@ + module_id@
            + "' health."@ + "cadence_ms"@ + " must be positive"@,
        raw.cadence_ms != Some(0u64) && raw.deadline_ms == Some(0u64) ==> r is Err && r->Err_0@
            == "module '"@ + module_id@ + "' health."@ + "deadline_ms"@ + " must be positive"@,
        raw.cadence_ms != Some(0u64) && raw.deadline_ms != Some(0u64) && raw.failure_threshold
            == Some(0u32) ==> r is Err && r->Err_0@ == "module '"@ + module_id@
            + "' health.failure_threshold must be positive"@,
        raw.cadence_ms != Some(0u64) && raw.deadline_ms != Some(0u64) && raw.failure_threshold
            != Some(0u32) && raw.on_degraded == Some(HealthAction::Restart) ==> r is Err
            && r->Err_0@ == "module '"@ + module_id@
            + "' health.on_degraded may not be 'restart': a degraded module is slow-but-moving, so restarting it converts transient load into an outage. Use 'report' or 'alert' (Health-Path v2: only total wreckage or reported-unresponsiveness restarts)."@,
{
}

/// Each restart key stands for itself: left out, it takes its built-in value; given,
/// it is the value given, in its unit. A file without the block has the built-in
/// values throughout.
pub proof fn each_restart_key_stands_for_itself(
    raw: &Option<RawRestartConfig>,
    module_id: &str,
    r: Result<RestartPolicy, String>,
)
    requires
        call_ensures(parse_restart_config, (raw, module_id), r),
        r is Ok,
    ensures
        ({
            let max_restarts = if raw is Some {
                raw->0.max_restarts
            } else {
                None
            };
            let window_secs = if raw is Some {
                raw->0.window_secs
            } else {
                None
            };
            let backoff_ms = if raw is Some {
                raw->0.backoff_ms
            } else {
                None
            };
            let max_backoff_ms = if raw is Some {
                raw->0.max_backoff_ms
            } else {
                None
            };
            let restart = r->Ok_0;
            &&& max_restarts is None ==> restart.max_restarts == 3
            &&& max_restarts matches Some(n) ==> restart.max_restarts == n
            &&& window_secs is None ==> restart.window@ == 600 * 1_000_000_000
            &&& window_secs matches Some(secs) ==> restart.window@ == secs * 1_000_000_000
            &&& backoff_ms is None ==> restart.backoff@ == 100 * 1_000_000
            &&& backoff_ms matches Some(ms) ==> restart.backoff@ == ms * 1_000_000
            &&& max_backoff_ms is None ==> restart.max_backoff@ == 30 * 1_000_000_000
            &&& max_backoff_ms matches Some(ms) ==> restart.max_backoff@ == ms * 1_000_000
        }),
{
}

/// A restart block is refused exactly for an empty window and for a longest
/// back-off below the first one, the built-in values standing in for the keys left
/// out.
pub proof fn when_a_restart_block_is_refused(
    raw: &Option<RawRestartConfig>,
    module_id: &str,
    r: Result<RestartPolicy, String>,
)
    requires
        call_ensures(parse_restart_config, (raw, module_id), r),
    ensures
        raw is None ==> r is Ok,
        raw matches Some(block) ==> {
            let backoff_ms = match block.backoff_ms {
                Some(ms) => ms as int,
                None => 100,
            };
            let max_backoff_ms = match block.max_backoff_ms {
                Some(ms) => ms as int,
                None => 30_000,
            };
            &&& r is Ok <==> block.window_secs != Some(0u64) && backoff_ms <= max_backoff_ms
            &&& block.window_secs == Some(0u64) ==> r is Err && r->Err_0@ == "module '"@ + escaped(
                module_id@,
            ) + "' "@
                + "restart.window_secs must be greater than 0 (a zero window holds no crash, so the budget can never be spent; for effectively unlimited restarts set a deliberately large window_secs, and to stop restarting entirely set restart.max_restarts: 0)"@
            &&& block.window_secs != Some(0u64) && max_backoff_ms < backoff_ms ==> r is Err
                && r->Err_0@ == "module '"@ + escaped(module_id@)
                + "' restart.max_backoff_ms must be greater than or equal to restart.backoff_ms (max_backoff_ms="@
                + duration_words((max_backoff_ms * 1_000_000) as nat) + ", backoff_ms="@
                + duration_words((backoff_ms * 1_000_000) as nat) + ")"@
        },
{
}

/// Two health settings are one exactly when every field is.
pub proof fn health_settings_are_one_by_their_fields(a: &HealthConfig, b: &HealthConfig, r: bool)
    requires
        call_ensures(HealthConfig::equals, (a, b), r),
    ensures
        r <==> {
            &&& a.cadence@ == b.cadence@
            &&& a.deadline@ == b.deadline@
            &&& a.failure_threshold == b.failure_threshold
            &&& a.on_degraded == b.on_degraded
            &&& a.on_failing == b.on_failing
            &&& a.critical == b.critical
        },
{
}

/// Two lists of strings differ in length or at some place.
pub open spec fn lists_differ(a: Seq<String>, b: Seq<String>) -> bool {
    a.len() != b.len() || exists|k: int| 0 <= k < a.len() && (#[trigger] a[k])@ != b[k]@
}

/// Two lists of variables differ in length, or in a name or a value at some place.
pub open spec fn variables_differ(a: Seq<(String, String)>, b: Seq<(String, String)>) -> bool {
    a.len() != b.len() || exists|k: int|
        0 <= k < a.len() && ((#[trigger] a[k]).0@ != b[k].0@ || a[k].1@ != b[k].1@)
}

/// Lists differ exactly when their characters do.
pub proof fn lists_differ_by_their_texts(a: Seq<String>, b: Seq<String>)
    ensures
        lists_differ(a, b) <==> texts(a) != texts(b),
{
    if texts(a) == texts(b) {
        assert(texts(a).len() == a.len() && texts(b).len() == b.len());
        if exists|k: int| 0 <= k < a.len() && (#[trigger] a[k])@ != b[k]@ {
            let k = choose|k: int| 0 <= k < a.len() && (#[trigger] a[k])@ != b[k]@;
            assert(texts(a)[k] == a[k]@ && texts(b)[k] == b[k]@);
        }
    } else if !lists_differ(a, b) {
        assert forall|k: int| 0 <= k < a.len() implies texts(a)[k] == texts(b)[k] by {
            assert(a[k]@ == b[k]@);
        }
        assert(texts(a) =~= texts(b));
    }
}

/// Lists of variables differ exactly when their characters do.
pub proof fn variables_differ_by_their_texts(a: Seq<(String, String)>, b: Seq<(String, String)>)
    ensures
        variables_differ(a, b) <==> pairs(a) != pairs(b),
{
    if pairs(a) == pairs(b) {
        assert(pairs(a).len() == a.len() && pairs(b).len() == b.len());
        if variables_differ(a, b) {
            let k = choose|k: int|
                0 <= k < a.len() && ((#[trigger] a[k]).0@ != b[k].0@ || a[k].1@ != b[k].1@);
            assert(pairs(a)[k] == (a[k].0@, a[k].1@) && pairs(b)[k] == (b[k].0@, b[k].1@));
        }
    } else if !variables_differ(a, b) {
        assert forall|k: int| 0 <= k < a.len() implies pairs(a)[k] == pairs(b)[k] by {
            assert(a[k].0@ == b[k].0@ && a[k].1@ == b[k].1@);
        }
        assert(pairs(a) =~= pairs(b));
    }
}

/// Two modules are started in one way exactly when every field of the two records
/// is the same, the programs being one path.
pub proof fn starts_are_one_by_their_fields(
    a: &ModuleSpec,
    windows: bool,
    b: &ModuleSpec,
    r: bool,
)
    requires
        call_ensures(ModuleSpec::equals, (a, windows, b), r),
    ensures
        r <==> {
            &&& a.module_id@ == b.module_id@
            &&& one_path(windows, a.program@, b.program@)
            &&& !lists_differ(a.args@, b.args@)
            &&& !variables_differ(a.env@, b.env@)
            &&& a.reserved == b.reserved
            &&& !lists_differ(a.reserved_prefixes@, b.reserved_prefixes@)
            &&& a.protocol == b.protocol
        },
{
    lists_differ_by_their_texts(a.args@, b.args@);
    lists_differ_by_their_texts(a.reserved_prefixes@, b.reserved_prefixes@);
    variables_differ_by_their_texts(a.env@, b.env@);
}

proof fn other_variables_are_kept(env: Seq<(Seq<char>, Seq<char>)>, v: (Seq<char>, Seq<char>))
    ensures
        other_variables(env).contains(v) <==> env.contains(v) && !logging_key(v.0),
    decreases env.len(),
{
    if env.len() > 0 {
        let before = env.drop_last();
        other_variables_are_kept(before, v);
        let kept = other_variables(before);
        if env.contains(v) {
            let k = choose|k: int| 0 <= k < env.len() && env[k] == v;
            if k < before.len() {
                assert(before[k] == v);
            }
        }
        if before.contains(v) {
            let k = choose|k: int| 0 <= k < before.len() && before[k] == v;
            assert(env[k] == v);
        }
        assert(env[env.len() - 1] == env.last());
        if !logging_key(env.last().0) {
            let all = kept.push(env.last());
            assert(all[all.len() - 1] == env.last());
            if kept.contains(v) {
                let k = choose|k: int| 0 <= k < kept.len() && kept[k] == v;
                assert(all[k] == v);
            }
            if all.contains(v) {
                let k = choose|k: int| 0 <= k < all.len() && all[k] == v;
                if k < kept.len() {
                    assert(kept[k] == v);
                }
            }
        }
    }
}

/// A module is started under its own id, program, arguments, reservation, prefixes
/// and protocol; without a logging policy it gets its own variables as they stand.
pub proof fn a_module_is_started_by_its_record(m: &ConfiguredModule, r: ModuleSpec)
    requires
        call_ensures(ConfiguredModule::module_spec, (m,), r),
    ensures
        r.module_id@ == m.module_id@,
        r.program@ == m.program@,
        !lists_differ(r.args@, m.args@),
        r.reserved == m.reserved,
        !lists_differ(r.reserved_prefixes@, m.reserved_prefixes@),
        r.protocol == m.protocol,
        m.log is None ==> !variables_differ(r.env@, m.env@),
{
    lists_differ_by_their_texts(r.args@, m.args@);
    lists_differ_by_their_texts(r.reserved_prefixes@, m.reserved_prefixes@);
    variables_differ_by_their_texts(r.env@, m.env@);
}

/// With a logging policy a module gets six variables that tell it the policy, behind
/// those of its own that have other names.
pub proof fn a_logging_policy_is_told_in_six_variables(m: &ConfiguredModule, r: ModuleSpec, k: int)
    requires
        call_ensures(ConfiguredModule::module_spec, (m,), r),
        m.log is Some,
    ensures
        ({
            let n = r.env@.len() as int;
            let log = m.log->0;
            &&& n >= 6
            &&& r.env@[n - 6].0@ == "CK_LOG"@ && r.env@[n - 6].1@ == filter_of(
                log@,
                m.module_id@,
            )
            &&& r.env@[n - 5].0@ == "CK_LOG_MAX_AGE_DAYS"@ && r.env@[n - 5].1@ == decimal(
                log.retention.max_age_days as nat,
            )
            &&& r.env@[n - 4].0@ == "CK_LOG_ALARM_SEGMENT_MB"@ && r.env@[n - 4].1@ == decimal(
                log.alarm_segment_mb as nat,
            )
            &&& r.env@[n - 3].0@ == "__SUBC_CAPTURE_LOG_MAX_FILE_MB"@ && r.env@[n - 3].1@
                == decimal(log.retention.max_file_mb as nat)
            &&& r.env@[n - 2].0@ == "__SUBC_CAPTURE_LOG_KEEP"@ && r.env@[n - 2].1@ == decimal(
                log.retention.keep as nat,
            )
            &&& r.env@[n - 1].0@ == "__SUBC_CAPTURE_LOG_MAX_AGE_DAYS"@ && r.env@[n - 1].1@
                == decimal(log.retention.max_age_days as nat)
            &&& 0 <= k < n - 6 ==> pairs(m.env@).contains((r.env@[k].0@, r.env@[k].1@))
            &&& 0 <= k < m.env@.len() && m.env@[k].0@ != "CK_LOG"@ && m.env@[k].0@
                != "CK_LOG_MAX_AGE_DAYS"@ && m.env@[k].0@ != "CK_LOG_ALARM_SEGMENT_MB"@
                && m.env@[k].0@ != "__SUBC_CAPTURE_LOG_MAX_FILE_MB"@ && m.env@[k].0@
                != "__SUBC_CAPTURE_LOG_KEEP"@ && m.env@[k].0@ != "__SUBC_CAPTURE_LOG_MAX_AGE_DAYS"@
                ==> pairs(r.env@).contains((m.env@[k].0@, m.env@[k].1@))
        }),
{
    let n = r.env@.len() as int;
    let mine = other_variables(pairs(m.env@));
    let told = logging_variables(m.log->0@, m.module_id@);
    assert(pairs(r.env@) == mine + told);
    assert(pairs(r.env@).len() == n);
    assert(told.len() == 6);
    assert forall|j: int| 0 <= j < 6 implies pairs(r.env@)[n - 6 + j] == #[trigger] told[j] by {}
    assert forall|j: int| 0 <= j < n implies pairs(r.env@)[j] == (
        (#[trigger] r.env@[j]).0@,
        r.env@[j].1@,
    ) by {}
    assert(pairs(r.env@)[n - 6] == told[0]);
    assert(pairs(r.env@)[n - 5] == told[1]);
    assert(pairs(r.env@)[n - 4] == told[2]);
    assert(pairs(r.env@)[n - 3] == told[3]);
    assert(pairs(r.env@)[n - 2] == told[4]);
    assert(pairs(r.env@)[n - 1] == told[5]);
    if 0 <= k < n - 6 {
        let v = (r.env@[k].0@, r.env@[k].1@);
        assert(mine[k] == v);
        other_variables_are_kept(pairs(m.env@), v);
    }
    if 0 <= k < m.env@.len() {
        let v = (m.env@[k].0@, m.env@[k].1@);
        assert(pairs(m.env@)[k] == v);
        other_variables_are_kept(pairs(m.env@), v);
        if mine.contains(v) {
            let j = choose|j: int| 0 <= j < mine.len() && mine[j] == v;
            assert(pairs(r.env@)[j] == v);
        }
    }
}

} // verus!
