//! A configured module, and what the supervisor is told of it.
use crate::daemon_config::logging::{filter_of, LoggingConfig, LoggingView};
use crate::daemon_config::policy::{HealthConfig, HealthView, RestartPolicy, RestartView};
use crate::daemon_config::ModuleProtocol;
use crate::paths::{one_path, same_path};
use crate::text::{
    copy_pairs, copy_texts, decimal, decimal_text, pairs, same, same_pairs, same_texts, texts,
};
use vstd::prelude::*;

verus! {

/// The variable that holds the filter of a module's logger.
pub const CK_LOG_ENV: &'static str = "CK_LOG";

/// How long a module keeps its own segments.
pub const CHILD_LOG_MAX_AGE_DAYS_ENV: &'static str = "CK_LOG_MAX_AGE_DAYS";

/// The size at which a module's own segments alarm.
pub const CHILD_LOG_ALARM_SEGMENT_MB_ENV: &'static str = "CK_LOG_ALARM_SEGMENT_MB";

/// The size at which the capture is rotated. This and the two that follow are for
/// the supervisor, which takes them out before it starts the module.
pub const CAPTURE_MAX_FILE_MB_ENV: &'static str = "__SUBC_CAPTURE_LOG_MAX_FILE_MB";

/// How many rotated captures are kept.
pub const CAPTURE_KEEP_ENV: &'static str = "__SUBC_CAPTURE_LOG_KEEP";

/// How long rotated captures are kept.
pub const CAPTURE_MAX_AGE_DAYS_ENV: &'static str = "__SUBC_CAPTURE_LOG_MAX_AGE_DAYS";

/// A module of the configuration, every inherited value filled in.
#[derive(Debug)]
pub struct ConfiguredModule {
    pub module_id: String,
    pub program: String,
    pub args: Vec<String>,
    pub env: Vec<(String, String)>,
    /// The module's own logging policy, or else the daemon's.
    pub log: Option<LoggingConfig>,
    pub enabled: bool,
    /// Only the process that the daemon started may register the id.
    pub reserved: bool,
    /// Prefixes of ids that only this module's process may register.
    pub reserved_prefixes: Vec<String>,
    pub protocol: ModuleProtocol,
    pub health: HealthConfig,
    /// How long a drain waits, in milliseconds. Absent means the built-in wait.
    pub drain_timeout_ms: Option<u64>,
    /// How long a bind may take, in milliseconds. Absent means the built-in
    /// budget.
    pub route_bind_relay_timeout_ms: Option<u64>,
    pub restart: RestartPolicy,
}

/// A [`ConfiguredModule`] over characters.
#[verifier::ext_equal]
pub struct ModuleView {
    pub module_id: Seq<char>,
    pub program: Seq<char>,
    pub args: Seq<Seq<char>>,
    pub env: Seq<(Seq<char>, Seq<char>)>,
    pub log: Option<LoggingView>,
    pub enabled: bool,
    pub reserved: bool,
    pub reserved_prefixes: Seq<Seq<char>>,
    pub protocol: ModuleProtocol,
    pub health: HealthView,
    pub drain_timeout_ms: Option<u64>,
    pub route_bind_relay_timeout_ms: Option<u64>,
    pub restart: RestartView,
}

/// An optional policy over characters.
pub open spec fn log_view(log: Option<LoggingConfig>) -> Option<LoggingView> {
    match log {
        Some(log) => Some(log@),
        None => None,
    }
}

impl View for ConfiguredModule {
    type V = ModuleView;

    open spec fn view(&self) -> ModuleView {
        ModuleView {
            module_id: self.module_id@,
            program: self.program@,
            args: texts(self.args@),
            env: pairs(self.env@),
            log: log_view(self.log),
            enabled: self.enabled,
            reserved: self.reserved,
            reserved_prefixes: texts(self.reserved_prefixes@),
            protocol: self.protocol,
            health: self.health@,
            drain_timeout_ms: self.drain_timeout_ms,
            route_bind_relay_timeout_ms: self.route_bind_relay_timeout_ms,
            restart: self.restart@,
        }
    }
}

/// The modules of a list over characters.
pub open spec fn module_views(modules: Seq<ConfiguredModule>) -> Seq<ModuleView> {
    modules.map_values(|m: ConfiguredModule| m@)
}

/// The modules' ids, with whether they are enabled.
pub open spec fn enabled_modules(modules: Seq<ModuleView>) -> Seq<(Seq<char>, bool)> {
    modules.map_values(|m: ModuleView| (m.module_id, m.enabled))
}

/// The pairs over characters.
pub open spec fn switch_views(list: Seq<(String, bool)>) -> Seq<(Seq<char>, bool)> {
    list.map_values(|p: (String, bool)| (p.0@, p.1))
}

/// The modules' ids, with whether they are enabled.
pub fn switches(modules: &Vec<ConfiguredModule>) -> (r: Vec<(String, bool)>)
    ensures
        switch_views(r@) == enabled_modules(module_views(modules@)),
{
    let mut r: Vec<(String, bool)> = Vec::new();
    let ghost all = enabled_modules(module_views(modules@));
    let mut i: usize = 0;
    while i < modules.len()
        invariant
            i <= modules.len(),
            all == enabled_modules(module_views(modules@)),
            switch_views(r@) =~= all.take(i as int),
        decreases modules.len() - i,
    {
        let ghost was = r@;
        r.push((modules[i].module_id.clone(), modules[i].enabled));
        proof {
            assert(all[i as int] == (modules@[i as int].module_id@, modules@[i as int].enabled));
            assert(switch_views(r@) =~= switch_views(was).push(all[i as int]));
            assert(all.take(i + 1) =~= all.take(i as int).push(all[i as int]));
        }
        i += 1;
    }
    proof {
        assert(all.take(i as int) =~= all);
    }
    r
}

/// What the supervisor starts.
#[derive(Debug)]
pub struct ModuleSpec {
    pub module_id: String,
    pub program: String,
    pub args: Vec<String>,
    pub env: Vec<(String, String)>,
    pub reserved: bool,
    pub reserved_prefixes: Vec<String>,
    pub protocol: ModuleProtocol,
}

/// A [`ModuleSpec`] over characters.
#[verifier::ext_equal]
pub struct ModuleSpecView {
    pub module_id: Seq<char>,
    pub program: Seq<char>,
    pub args: Seq<Seq<char>>,
    pub env: Seq<(Seq<char>, Seq<char>)>,
    pub reserved: bool,
    pub reserved_prefixes: Seq<Seq<char>>,
    pub protocol: ModuleProtocol,
}

impl View for ModuleSpec {
    type V = ModuleSpecView;

    open spec fn view(&self) -> ModuleSpecView {
        ModuleSpecView {
            module_id: self.module_id@,
            program: self.program@,
            args: texts(self.args@),
            env: pairs(self.env@),
            reserved: self.reserved,
            reserved_prefixes: texts(self.reserved_prefixes@),
            protocol: self.protocol,
        }
    }
}

/// The two start the same process: their programs are one path, and all else is
/// equal.
pub open spec fn same_start(windows: bool, a: ModuleSpecView, b: ModuleSpecView) -> bool {
    one_path(windows, a.program, b.program) && a == (ModuleSpecView { program: a.program, ..b })
}

impl ModuleSpec {
    /// Whether the two start the same process.
    pub fn equals(&self, windows: bool, other: &ModuleSpec) -> (r: bool)
        ensures
            r == same_start(windows, self@, other@),
    {
        same(self.module_id.as_str(), other.module_id.as_str()) && same_path(
            windows,
            self.program.as_str(),
            other.program.as_str(),
        ) && same_texts(&self.args, &other.args) && same_pairs(&self.env, &other.env)
            && self.reserved == other.reserved && same_texts(
            &self.reserved_prefixes,
            &other.reserved_prefixes,
        ) && self.protocol == other.protocol
    }
}

/// A variable that the logging policy sets.
pub open spec fn logging_key(key: Seq<char>) -> bool {
    key == CK_LOG_ENV@ || key == CAPTURE_MAX_FILE_MB_ENV@ || key == CAPTURE_KEEP_ENV@ || key
        == CAPTURE_MAX_AGE_DAYS_ENV@ || key == CHILD_LOG_MAX_AGE_DAYS_ENV@ || key
        == CHILD_LOG_ALARM_SEGMENT_MB_ENV@
}

fn is_logging_key(key: &str) -> (r: bool)
    ensures
        r == logging_key(key@),
{
    same(key, CK_LOG_ENV) || same(key, CAPTURE_MAX_FILE_MB_ENV) || same(key, CAPTURE_KEEP_ENV)
        || same(key, CAPTURE_MAX_AGE_DAYS_ENV) || same(key, CHILD_LOG_MAX_AGE_DAYS_ENV) || same(
        key,
        CHILD_LOG_ALARM_SEGMENT_MB_ENV,
    )
}

/// The variables that the logging policy does not set.
pub open spec fn other_variables(env: Seq<(Seq<char>, Seq<char>)>) -> Seq<(Seq<char>, Seq<char>)>
    decreases env.len(),
{
    if env.len() == 0 {
        Seq::empty()
    } else if logging_key(env.last().0) {
        other_variables(env.drop_last())
    } else {
        other_variables(env.drop_last()).push(env.last())
    }
}

/// The variables that the logging policy sets.
pub open spec fn logging_variables(log: LoggingView, module_id: Seq<char>) -> Seq<
    (Seq<char>, Seq<char>),
> {
    seq![
        (CK_LOG_ENV@, filter_of(log, module_id)),
        (CHILD_LOG_MAX_AGE_DAYS_ENV@, decimal(log.retention.max_age_days as nat)),
        (CHILD_LOG_ALARM_SEGMENT_MB_ENV@, decimal(log.alarm_segment_mb as nat)),
        (CAPTURE_MAX_FILE_MB_ENV@, decimal(log.retention.max_file_mb as nat)),
        (CAPTURE_KEEP_ENV@, decimal(log.retention.keep as nat)),
        (CAPTURE_MAX_AGE_DAYS_ENV@, decimal(log.retention.max_age_days as nat)),
    ]
}

/// The variables that a module is started with: its own, and with a logging
/// policy those of the policy in place of its own of the same names.
pub open spec fn started_env(m: ModuleView) -> Seq<(Seq<char>, Seq<char>)> {
    match m.log {
        Some(log) => other_variables(m.env) + logging_variables(log, m.module_id),
        None => m.env,
    }
}

/// What the supervisor is told of a module.
pub open spec fn spec_of(m: ModuleView) -> ModuleSpecView {
    ModuleSpecView {
        module_id: m.module_id,
        program: m.program,
        args: m.args,
        env: started_env(m),
        reserved: m.reserved,
        reserved_prefixes: m.reserved_prefixes,
        protocol: m.protocol,
    }
}

fn keep_other_variables(env: &Vec<(String, String)>) -> (r: Vec<(String, String)>)
    ensures
        pairs(r@) == other_variables(pairs(env@)),
{
    let mut r: Vec<(String, String)> = Vec::new();
    let mut i: usize = 0;
    proof {
        assert(pairs(r@) =~= Seq::empty());
    }
    while i < env.len()
        invariant
            i <= env.len(),
            pairs(r@) == other_variables(pairs(env@.take(i as int))),
        decreases env.len() - i,
    {
        let ghost was = r@;
        proof {
            assert(pairs(env@.take(i + 1)).drop_last() =~= pairs(env@.take(i as int)));
            assert(pairs(env@.take(i + 1)).last() == (env@[i as int].0@, env@[i as int].1@));
        }
        if !is_logging_key(env[i].0.as_str()) {
            r.push((env[i].0.clone(), env[i].1.clone()));
            proof {
                assert(pairs(r@) =~= pairs(was).push((env@[i as int].0@, env@[i as int].1@)));
            }
        }
        i += 1;
    }
    proof {
        assert(env@.take(i as int) =~= env@);
    }
    r
}

impl ConfiguredModule {
    /// What the supervisor is told of the module.
    pub fn module_spec(&self) -> (r: ModuleSpec)
        ensures
            r@ == spec_of(self@),
    {
        let env: Vec<(String, String)> = match &self.log {
            Some(log) => {
                let mut env: Vec<(String, String)> = keep_other_variables(&self.env);
                let ghost was = env@;
                env.push((String::from_str(CK_LOG_ENV), log.filter_spec(self.module_id.as_str())));
                env.push(
                    (
                        String::from_str(CHILD_LOG_MAX_AGE_DAYS_ENV),
                        decimal_text(log.retention.max_age_days as u64),
                    ),
                );
                env.push(
                    (
                        String::from_str(CHILD_LOG_ALARM_SEGMENT_MB_ENV),
                        decimal_text(log.alarm_segment_mb as u64),
                    ),
                );
                env.push(
                    (
                        String::from_str(CAPTURE_MAX_FILE_MB_ENV),
                        decimal_text(log.retention.max_file_mb as u64),
                    ),
                );
                env.push(
                    (String::from_str(CAPTURE_KEEP_ENV), decimal_text(log.retention.keep as u64)),
                );
                env.push(
                    (
                        String::from_str(CAPTURE_MAX_AGE_DAYS_ENV),
                        decimal_text(log.retention.max_age_days as u64),
                    ),
                );
                proof {
                    assert(pairs(env@) =~= pairs(was) + logging_variables(log@, self.module_id@));
                }
                env
            },
            None => copy_pairs(&self.env),
        };
        ModuleSpec {
            module_id: self.module_id.clone(),
            program: self.program.clone(),
            args: copy_texts(&self.args),
            env,
            reserved: self.reserved,
            reserved_prefixes: copy_texts(&self.reserved_prefixes),
            protocol: self.protocol,
        }
    }
}

/// With a logging policy, each variable of the policy that a module is started
/// with holds what the policy says.
pub proof fn the_policy_decides_its_variables(m: ModuleView, i: int)
    requires
        m.log is Some,
        0 <= i < started_env(m).len(),
        logging_key(started_env(m)[i].0),
    ensures
        logging_variables(m.log->0, m.module_id).contains(started_env(m)[i]),
{
    let log = m.log->0;
    let others = other_variables(m.env);
    others_are_not_logging(m.env);
    if i < others.len() {
        assert(!logging_key(others[i].0));
    }
    assert(logging_variables(log, m.module_id)[i - others.len()] == started_env(m)[i]);
}

proof fn others_are_not_logging(env: Seq<(Seq<char>, Seq<char>)>)
    ensures
        forall|i: int|
            0 <= i < other_variables(env).len() ==> !logging_key(
                (#[trigger] other_variables(env)[i]).0,
            ),
    decreases env.len(),
{
    if env.len() > 0 {
        let before = other_variables(env.drop_last());
        others_are_not_logging(env.drop_last());
        assert forall|i: int| 0 <= i < other_variables(env).len() implies !logging_key(
            (#[trigger] other_variables(env)[i]).0,
        ) by {
            if i < before.len() {
                assert(other_variables(env)[i] == before[i]);
            }
        }
    }
}

} // verus!
