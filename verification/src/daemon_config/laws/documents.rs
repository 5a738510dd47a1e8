//! What holds of every configuration file that is read: each setting comes from its own
//! key, else from the daemon's, else from the built-in value.
use crate::daemon_config::document::{
    each_module_stands_for_itself, inherited_of, load, load_logging, module_of, modules_of,
    parse_doc, parse_module_protocol, ConfigDefaults, ConfigDocument, DaemonConfig,
    DaemonConfigError, InheritedView, RawDaemonConfig, RawModuleConfig, RawStorageConfig,
};
use crate::daemon_config::laws::{lists_differ, lists_differ_by_their_texts};
use crate::daemon_config::logging::{
    directive, directives, filter_of, fits_name, logger_name, parse_logging_config, tag_rule,
    LoggingConfig, LoggingDefaults, LoggingView, RawLoggingConfig, SegmentRetention,
};
use crate::daemon_config::module::{
    enabled_modules, module_views, switch_views, switches, ConfiguredModule, ModuleView,
};
use crate::daemon_config::policy::{
    parse_health_config, parse_restart_config, HealthAction, HealthConfig, RawHealthConfig,
    RawRestartConfig, RestartPolicy,
};
use crate::daemon_config::validate::{
    against_rule, binding_rule, boundary_rule, collision_rule, following_rule, module_named,
    names_targets, overlap_rule, owner_rule, pair_rule, places, prefix_rule, prefixes_problem,
    reach_rule,
};
use crate::daemon_config::{ModuleProtocol, StorageConfig, StorageDescriptor};
use crate::key_order::{by_key, by_key_holds_the_latest_in_order, keys_of};
use crate::paths::absolute;
use crate::problems::{no_problem_means_all_pass, problem_found};
use crate::text::{
    before, before_irreflexive, decimal, escaped, is_prefix, joined, pairs, quoted, texts, trimmed,
    without_trailing,
};
use vstd::prelude::*;

verus! {

/// The logging policy is what its block says, key by key, with the built-in value for
/// each key that is left out.
pub open spec fn logs_as(
    log: LoggingConfig,
    raw: RawLoggingConfig,
    defaults: LoggingDefaults,
) -> bool {
    &&& raw.level is None ==> log.level@ == "info"@
    &&& raw.level matches Some(level) ==> log.level@ == level@
    &&& pairs(log.tags@) == pairs(by_key(raw.tags@))
    &&& raw.alarm_segment_mb is None ==> log.alarm_segment_mb == defaults.alarm_segment_mb
    &&& raw.alarm_segment_mb matches Some(mb) ==> log.alarm_segment_mb == mb
    &&& raw.max_file_mb is None ==> log.retention.max_file_mb == defaults.retention.max_file_mb
    &&& raw.max_file_mb matches Some(mb) ==> log.retention.max_file_mb == mb
    &&& raw.keep is None ==> log.retention.keep == defaults.retention.keep
    &&& raw.keep matches Some(n) ==> log.retention.keep == n
    &&& raw.max_age_days is None ==> log.retention.max_age_days == defaults.retention.max_age_days
    &&& raw.max_age_days matches Some(days) ==> log.retention.max_age_days == days
}

/// The health settings are what the block says, key by key, with the default of the
/// same name for each key that is left out.
pub open spec fn checks_as(
    health: HealthConfig,
    raw: RawHealthConfig,
    defaults: HealthConfig,
) -> bool {
    &&& raw.cadence_ms is None ==> health.cadence@ == defaults.cadence@
    &&& raw.cadence_ms matches Some(ms) ==> health.cadence@ == ms * 1_000_000
    &&& raw.deadline_ms is None ==> health.deadline@ == defaults.deadline@
    &&& raw.deadline_ms matches Some(ms) ==> health.deadline@ == ms * 1_000_000
    &&& raw.failure_threshold is None ==> health.failure_threshold == defaults.failure_threshold
    &&& raw.failure_threshold matches Some(n) ==> health.failure_threshold == n
    &&& raw.on_degraded is None ==> health.on_degraded == defaults.on_degraded
    &&& raw.on_degraded matches Some(action) ==> health.on_degraded == action
    &&& raw.on_failing is None ==> health.on_failing == defaults.on_failing
    &&& raw.on_failing matches Some(action) ==> health.on_failing == action
    &&& health.critical == raw.critical
}

/// The restart policy is what the block says, key by key, with the built-in value for
/// each key that is left out.
pub open spec fn restarts_as(restart: RestartPolicy, raw: RawRestartConfig) -> bool {
    &&& raw.max_restarts is None ==> restart.max_restarts == 3
    &&& raw.max_restarts matches Some(n) ==> restart.max_restarts == n
    &&& raw.window_secs is None ==> restart.window@ == 600 * 1_000_000_000
    &&& raw.window_secs matches Some(secs) ==> restart.window@ == secs * 1_000_000_000
    &&& raw.backoff_ms is None ==> restart.backoff@ == 100 * 1_000_000
    &&& raw.backoff_ms matches Some(ms) ==> restart.backoff@ == ms * 1_000_000
    &&& raw.max_backoff_ms is None ==> restart.max_backoff@ == 30 * 1_000_000_000
    &&& raw.max_backoff_ms matches Some(ms) ==> restart.max_backoff@ == ms * 1_000_000
}

/// Each module of an accepted file has what its own record says: its program, its
/// arguments, its switch, its reservation and its prefixes, and its protocol, which is
/// the daemon's own where the record does not say.
pub proof fn each_module_is_what_its_record_says(
    raw: RawDaemonConfig,
    defaults: &ConfigDefaults,
    path: &str,
    r: Result<DaemonConfig, DaemonConfigError>,
    i: int,
)
    requires
        call_ensures(parse_doc, (raw, defaults, path), r),
        r is Ok,
        0 <= i < by_key(raw.modules@).len(),
    ensures
        r->Ok_0.modules@.len() == by_key(raw.modules@).len(),
        ({
            let m = r->Ok_0.modules@[i];
            let own = by_key(raw.modules@)[i];
            &&& m.module_id@ == own.module_id@
            &&& m.program@ == own.program@
            &&& !lists_differ(m.args@, own.args@)
            &&& pairs(m.env@) == pairs(by_key(own.env@))
            &&& m.enabled == own.enabled
            &&& m.reserved == own.reserved
            &&& !lists_differ(m.reserved_prefixes@, own.reserved_prefixes@)
            &&& own.protocol is None ==> m.protocol == ModuleProtocol::Subc
            &&& own.protocol matches Some(text) ==> (text@ == "subc"@ || text@ == "none"@) && (
            text@ == "subc"@ ==> m.protocol == ModuleProtocol::Subc) && (text@ == "none"@
                ==> m.protocol == ModuleProtocol::NoProtocol)
        }),
{
    each_module_stands_for_itself(raw, *defaults, path@, i);
    let config = r->Ok_0;
    assert(config@.modules.len() == config.modules@.len());
    assert(config@.modules[i] == config.modules@[i]@);
    let m = config.modules@[i];
    let own = by_key(raw.modules@)[i];
    lists_differ_by_their_texts(m.args@, own.args@);
    lists_differ_by_their_texts(m.reserved_prefixes@, own.reserved_prefixes@);
    reveal_strlit("subc");
    reveal_strlit("none");
    assert("subc"@[0] != "none"@[0]);
}

/// Each module of an accepted file takes a policy from its own record where the record
/// has it, key by key, and else from the daemon or the built-in values: its health, its
/// restarts, its logging, its drain time and its bind budget.
pub proof fn each_policy_is_the_nearest(
    raw: RawDaemonConfig,
    defaults: &ConfigDefaults,
    path: &str,
    r: Result<DaemonConfig, DaemonConfigError>,
    i: int,
)
    requires
        call_ensures(parse_doc, (raw, defaults, path), r),
        r is Ok,
        0 <= i < by_key(raw.modules@).len(),
    ensures
        ({
            let m = r->Ok_0.modules@[i];
            let own = by_key(raw.modules@)[i];
            &&& own.drain_timeout_ms is Some ==> m.drain_timeout_ms == own.drain_timeout_ms
            &&& own.drain_timeout_ms is None ==> m.drain_timeout_ms == raw.drain_timeout_ms
            &&& own.route_bind_relay_timeout_ms is Some ==> m.route_bind_relay_timeout_ms
                == own.route_bind_relay_timeout_ms
            &&& own.route_bind_relay_timeout_ms is None ==> m.route_bind_relay_timeout_ms
                == raw.route_bind_relay_timeout_ms
            &&& own.health matches Some(block) ==> checks_as(m.health, block, defaults.health)
            &&& own.health is None ==> m.health.cadence@ == defaults.health.cadence@
                && m.health.deadline@ == defaults.health.deadline@ && m.health.failure_threshold
                == defaults.health.failure_threshold && m.health.on_degraded
                == defaults.health.on_degraded && m.health.on_failing
                == defaults.health.on_failing && m.health.critical == defaults.health.critical
            &&& own.restart matches Some(block) ==> restarts_as(m.restart, block)
            &&& own.restart is None ==> m.restart.max_restarts == 3 && m.restart.window@ == 600
                * 1_000_000_000 && m.restart.backoff@ == 100 * 1_000_000
                && m.restart.max_backoff@ == 30 * 1_000_000_000
            &&& own.log matches Some(block) ==> m.log is Some && logs_as(
                m.log->0,
                block,
                defaults.logging,
            )
            &&& own.log is None ==> (raw.log matches Some(block) ==> m.log is Some && logs_as(
                m.log->0,
                block,
                defaults.logging,
            ))
            &&& own.log is None && raw.log is None ==> m.log is None
        }),
{
    each_module_stands_for_itself(raw, *defaults, path@, i);
    let config = r->Ok_0;
    assert(config@.modules[i] == config.modules@[i]@);
}

/// What an accepted file says of the daemon is taken as it stands: the port, the times,
/// the carrier and the targets of admission facts, and the data home, which is the
/// platform's where the file names storage without one.
pub proof fn what_a_file_says_of_the_daemon(
    raw: RawDaemonConfig,
    defaults: &ConfigDefaults,
    path: &str,
    r: Result<DaemonConfig, DaemonConfigError>,
)
    requires
        call_ensures(parse_doc, (raw, defaults, path), r),
        r is Ok,
    ensures
        r->Ok_0.path@ == path@,
        r->Ok_0.port == raw.port,
        r->Ok_0.drain_timeout_ms == raw.drain_timeout_ms,
        r->Ok_0.route_bind_relay_timeout_ms == raw.route_bind_relay_timeout_ms,
        r->Ok_0.admission_facts_carrier_module_id is Some
            <==> raw.admission_facts_carrier_module_id is Some,
        r->Ok_0.admission_facts_carrier_module_id matches Some(id) ==> id@
            == raw.admission_facts_carrier_module_id->0@,
        r->Ok_0.admission_facts_targets is Some <==> raw.admission_facts_targets is Some,
        r->Ok_0.admission_facts_targets matches Some(list) ==> !lists_differ(
            list@,
            raw.admission_facts_targets->0@,
        ),
        r->Ok_0.storage is Some <==> raw.storage is Some,
        raw.storage matches Some(RawStorageConfig::Sqlite { data_home }) ==> (
        r->Ok_0.storage matches Some(StorageConfig::Sqlite { data_home: home }) && home@ == (
        match data_home {
            Some(own) => own@,
            None => defaults.data_home@,
        })),
        raw.version == 1,
        raw.route_bind_relay_timeout_ms != Some(0u64),
{
    if r->Ok_0.admission_facts_targets is Some {
        lists_differ_by_their_texts(
            r->Ok_0.admission_facts_targets->0@,
            raw.admission_facts_targets->0@,
        );
    }
}

/// The reserved capabilities of an accepted file are those of its bindings, each bound
/// to the module that its binding names.
pub proof fn reservations_are_those_of_the_file(
    raw: RawDaemonConfig,
    defaults: &ConfigDefaults,
    path: &str,
    r: Result<DaemonConfig, DaemonConfigError>,
    i: int,
)
    requires
        call_ensures(parse_doc, (raw, defaults, path), r),
        r is Ok,
    ensures
        r->Ok_0.reserved_capabilities@.len() == by_key(raw.reserved_capabilities@).len(),
        0 <= i < by_key(raw.reserved_capabilities@).len() ==> r->Ok_0.reserved_capabilities@[i].0@
            == by_key(raw.reserved_capabilities@)[i].capability@
            && r->Ok_0.reserved_capabilities@[i].1@ == by_key(
            raw.reserved_capabilities@,
        )[i].module_id@,
{
    let config = r->Ok_0;
    let list = config.reserved_capabilities@;
    assert(config@.reserved_capabilities.len() == list.len());
    if 0 <= i < by_key(raw.reserved_capabilities@).len() {
        assert(config@.reserved_capabilities[i] == (list[i].0@, list[i].1@));
    }
}

/// The file is refused for a value, with this message.
pub open spec fn value_refused(
    r: Result<DaemonConfig, DaemonConfigError>,
    path: Seq<char>,
    message: Seq<char>,
) -> bool {
    r matches Err(DaemonConfigError::InvalidValue { path: at, message: text }) && at@ == path
        && text@ == message
}

/// A file of another version is refused by that version, whatever else it says, and a
/// daemon-wide bind budget of zero is refused.
pub proof fn which_files_are_refused_outright(
    raw: RawDaemonConfig,
    defaults: &ConfigDefaults,
    path: &str,
    r: Result<DaemonConfig, DaemonConfigError>,
)
    requires
        call_ensures(parse_doc, (raw, defaults, path), r),
    ensures
        raw.version != 1 ==> (r matches Err(DaemonConfigError::UnsupportedVersion {
            path: at,
            version,
        }) && at@ == path@ && version == raw.version),
        raw.version == 1 && raw.log is None && raw.route_bind_relay_timeout_ms == Some(0u64)
            ==> value_refused(
            r,
            path@,
            "route_bind_relay_timeout_ms must be greater than 0 (a zero budget fails every bind to the module; to make a module unreachable use enabled: false)"@,
        ),
{
}

proof fn the_first_wrong_module_decides(
    raw: Seq<RawModuleConfig>,
    logging: LoggingDefaults,
    health: crate::daemon_config::policy::HealthView,
    inherited: InheritedView,
    i: int,
)
    requires
        0 <= i < raw.len(),
        forall|k: int|
            0 <= k < i ==> module_of(#[trigger] raw[k], logging, health, inherited) is Ok,
    ensures
        module_of(raw[i], logging, health, inherited) matches Err(text) ==> modules_of(
            raw,
            logging,
            health,
            inherited,
        ) == Err::<Seq<crate::daemon_config::module::ModuleView>, _>(text),
        i == raw.len() - 1 ==> modules_of(raw.drop_last(), logging, health, inherited) is Ok,
    decreases raw.len(),
{
    let before = raw.drop_last();
    let last = raw.len() - 1;
    if i < last {
        assert(before[i] == raw[i]);
        assert forall|k: int| 0 <= k < i implies module_of(
            #[trigger] before[k],
            logging,
            health,
            inherited,
        ) is Ok by {
            assert(before[k] == raw[k]);
        }
        the_first_wrong_module_decides(before, logging, health, inherited, i);
    } else if last > 0 {
        assert forall|k: int| 0 <= k < last - 1 implies module_of(
            #[trigger] before[k],
            logging,
            health,
            inherited,
        ) is Ok by {
            assert(before[k] == raw[k]);
        }
        the_first_wrong_module_decides(before, logging, health, inherited, last - 1);
        assert(before[last - 1] == raw[last - 1]);
        assert(module_of(raw[last - 1], logging, health, inherited) is Ok);
    }
}

/// The first module in the order of the ids that is wrong refuses the file, by the first
/// thing that is wrong with it: its id as a path, a bind budget of zero, a protocol that
/// does not exist, or a reservation that nothing could check.
pub proof fn the_first_wrong_module_is_named(
    raw: RawDaemonConfig,
    defaults: &ConfigDefaults,
    path: &str,
    r: Result<DaemonConfig, DaemonConfigError>,
    i: int,
)
    requires
        call_ensures(parse_doc, (raw, defaults, path), r),
        raw.version == 1,
        raw.log is None,
        raw.route_bind_relay_timeout_ms != Some(0u64),
        0 <= i < by_key(raw.modules@).len(),
        by_key(raw.modules@)[i].health is None,
        forall|k: int|
            0 <= k < i ==> module_of(
                #[trigger] by_key(raw.modules@)[k],
                defaults.logging,
                defaults.health@,
                inherited_of(raw, None),
            ) is Ok,
    ensures
        ({
            let own = by_key(raw.modules@)[i];
            let id = own.module_id@;
            let usable = own.path_hazard is None;
            let budgeted = usable && own.route_bind_relay_timeout_ms != Some(0u64);
            &&& own.path_hazard matches Some(reason) ==> value_refused(
                r,
                path@,
                "module id '"@ + escaped(id) + "' is not usable as a path component ("@ + reason@
                    + "): the daemon derives each module's store path from its id"@,
            )
            &&& usable && own.route_bind_relay_timeout_ms == Some(0u64) ==> value_refused(
                r,
                path@,
                "module '"@ + escaped(id) + "' "@
                    + "route_bind_relay_timeout_ms must be greater than 0 (a zero budget fails every bind to the module; to make a module unreachable use enabled: false)"@,
            )
            &&& budgeted ==> (own.protocol matches Some(text) ==> (text@ != "subc"@ && text@
                != "none"@ ==> value_refused(
                r,
                path@,
                "module '"@ + escaped(id) + "' declares protocol "@ + quoted(text@)
                    + "; supported values are \"subc\" (the default when the key is absent) and \"none\""@,
            )))
            &&& budgeted && own.reserved ==> (own.protocol matches Some(text) ==> (text@
                == "none"@ ==> value_refused(
                r,
                path@,
                "module '"@ + escaped(id)
                    + "' sets reserved: true with protocol: \"none\"; reserved is enforced on the module's HELLO and a protocol: \"none\" module never registers, so the reservation could never be checked"@,
            )))
        }),
{
    the_first_wrong_module_decides(
        by_key(raw.modules@),
        defaults.logging,
        defaults.health@,
        inherited_of(raw, None),
        i,
    );
    reveal_strlit("subc");
    reveal_strlit("none");
    assert("subc"@[0] != "none"@[0]);
}

/// A module speaks the daemon's protocol where it does not say or says so, none where it
/// says none; any other word is refused.
pub proof fn which_protocols_there_are(
    raw: &Option<String>,
    module_id: &str,
    r: Result<ModuleProtocol, String>,
)
    requires
        call_ensures(parse_module_protocol, (raw, module_id), r),
    ensures
        raw is None ==> r == Ok::<_, String>(ModuleProtocol::Subc),
        raw matches Some(text) ==> {
            &&& text@ == "subc"@ ==> r == Ok::<_, String>(ModuleProtocol::Subc)
            &&& text@ == "none"@ ==> r == Ok::<_, String>(ModuleProtocol::NoProtocol)
            &&& text@ != "subc"@ && text@ != "none"@ ==> r is Err && r->Err_0@ == "module '"@
                + escaped(module_id@) + "' declares protocol "@ + quoted(text@)
                + "; supported values are \"subc\" (the default when the key is absent) and \"none\""@
        },
{
    reveal_strlit("subc");
    reveal_strlit("none");
    assert("subc"@[0] != "none"@[0]);
}

/// A file that is not there is no configuration; one that could not be read, or is no
/// JSONC or JSON, is refused for that, with the path; any other goes by what it says.
pub proof fn what_reading_a_file_gives(
    path: &str,
    document: ConfigDocument,
    defaults: &ConfigDefaults,
    r: Result<Option<DaemonConfig>, DaemonConfigError>,
)
    requires
        call_ensures(load, (path, document, defaults), r),
    ensures
        document is Absent ==> r == Ok::<Option<DaemonConfig>, DaemonConfigError>(None),
        document matches ConfigDocument::Unreadable(text) ==> (
        r matches Err(DaemonConfigError::Read { path: at, source }) && at@ == path@ && source@
            == text@),
        document matches ConfigDocument::NotJsonc(text) ==> (
        r matches Err(DaemonConfigError::InvalidJsonc { path: at, message }) && at@ == path@
            && message@ == text@),
        document matches ConfigDocument::NotJson(text) ==> (
        r matches Err(DaemonConfigError::InvalidJson { path: at, source }) && at@ == path@
            && source@ == text@),
        document matches ConfigDocument::Parsed(raw) ==> (raw.version != 1 ==> (
        r matches Err(DaemonConfigError::UnsupportedVersion { path: at, version }) && at@ == path@
            && version == raw.version)) && (r matches Ok(found) ==> found is Some
            && found->0.path@ == path@ && found->0.port == raw.port),
{
}

/// The daemon's own logging policy is read from the file before all else: what its block
/// says, and none where the file or the block is absent.
pub proof fn what_the_daemon_logs_by(
    path: &str,
    document: ConfigDocument,
    defaults: &LoggingDefaults,
    r: Result<Option<LoggingConfig>, DaemonConfigError>,
)
    requires
        call_ensures(load_logging, (path, document, defaults), r),
    ensures
        document is Absent ==> r == Ok::<Option<LoggingConfig>, DaemonConfigError>(None),
        document matches ConfigDocument::Unreadable(text) ==> (
        r matches Err(DaemonConfigError::Read { path: at, source }) && at@ == path@ && source@
            == text@),
        document matches ConfigDocument::Parsed(raw) ==> {
            &&& raw.version != 1 ==> (r matches Err(DaemonConfigError::UnsupportedVersion {
                path: at,
                version,
            }) && at@ == path@ && version == raw.version)
            &&& raw.version == 1 && raw.log is None ==> r == Ok::<
                Option<LoggingConfig>,
                DaemonConfigError,
            >(None)
            &&& raw.log matches Some(block) ==> (r matches Ok(log) ==> log is Some && logs_as(
                log->0,
                block,
                *defaults,
            ))
        },
{
}

/// A logging block is taken key by key, and refused for a level that does not exist,
/// then for a wrong tag, then for a size of zero.
pub proof fn each_logging_key_stands_for_itself(
    raw: &RawLoggingConfig,
    defaults: &LoggingDefaults,
    owner: &str,
    r: Result<LoggingConfig, String>,
)
    requires
        call_ensures(parse_logging_config, (raw, defaults, owner), r),
    ensures
        r is Ok ==> logs_as(r->Ok_0, *raw, *defaults),
        raw.level matches Some(level) ==> (level@ != "off"@ && level@ != "error"@ && level@
            != "warn"@ && level@ != "info"@ && level@ != "debug"@ && level@ != "trace"@ ==> r is Err
            && r->Err_0@ == owner@
            + ".level must be one of off, error, warn, info, debug, trace; got "@ + quoted(level@)),
        raw.level is None && raw.tags@.len() == 0 ==> {
            let file_mb = match raw.max_file_mb {
                Some(mb) => mb,
                None => defaults.retention.max_file_mb,
            };
            let alarm_mb = match raw.alarm_segment_mb {
                Some(mb) => mb,
                None => defaults.alarm_segment_mb,
            };
            &&& r is Ok <==> file_mb > 0 && alarm_mb > 0
            &&& file_mb == 0 ==> r is Err && r->Err_0@ == owner@
                + ".max_file_mb must be greater than 0"@
            &&& file_mb > 0 && alarm_mb == 0 ==> r is Err && r->Err_0@ == owner@
                + ".alarm_segment_mb must be greater than 0"@
        },
{
    if raw.tags@.len() == 0 {
        assert(by_key(raw.tags@) =~= Seq::empty());
        assert(pairs(by_key(raw.tags@)) =~= Seq::empty());
    }
}

/// A module's filter starts with its level and goes on with one directive for each tag:
/// a tag that is the module's own id or a dotted name stands as it is, any other below
/// the module's id.
pub proof fn a_filter_has_a_directive_for_each_tag(
    log: LoggingView,
    tag: (Seq<char>, Seq<char>),
    module_id: Seq<char>,
)
    ensures
        log.tags.len() == 0 ==> filter_of(log, module_id) == log.level,
        filter_of(LoggingView { tags: log.tags.push(tag), ..log }, module_id) == filter_of(
            log,
            module_id,
        ) + ","@ + (if tag.0 == module_id || tag.0.contains('.') {
            tag.0 + "="@ + tag.1
        } else {
            module_id + "."@ + tag.0 + "="@ + tag.1
        }),
{
    let parts = directives(log, module_id);
    let more = directives(LoggingView { tags: log.tags.push(tag), ..log }, module_id);
    assert(more =~= parts.push(directive(tag, module_id)));
    assert(more.drop_last() =~= parts);
    reveal_with_fuel(joined, 2);
    if log.tags.len() == 0 {
        assert(parts =~= seq![log.level]);
        assert(parts.drop_last() =~= Seq::empty());
    }
}

/// A module's store stands below the data home, by the module's own id.
pub proof fn a_store_stands_by_its_modules_id(
    storage: &StorageConfig,
    module_id: &str,
    r: StorageDescriptor,
)
    requires
        call_ensures(StorageConfig::descriptor_for, (storage, module_id), r),
    ensures
        r.module_id@ == module_id@,
        r.storage_namespace@ == "default"@,
        r.isolation_kind@ == "module"@,
        r.backend@ == "sqlite"@,
        *storage matches StorageConfig::Sqlite { data_home } ==> (data_home@.len() > 0
            && data_home@.last() != '/' ==> r.path@ == data_home@ + "/cortexkit/"@ + module_id@
            + "/store.db"@),
{
}

/// Each error of the configuration says what went wrong and where.
pub proof fn what_a_configuration_error_says(error: &DaemonConfigError, r: String)
    requires
        call_ensures(DaemonConfigError::to_text, (error,), r),
    ensures
        *error matches DaemonConfigError::Read { path, source } ==> r@
            == "failed to read daemon config "@ + path@ + ": "@ + source@,
        *error matches DaemonConfigError::InvalidJsonc { path, message } ==> r@
            == "invalid JSONC in daemon config "@ + path@ + ": "@ + message@,
        *error matches DaemonConfigError::InvalidJson { path, source } ==> r@
            == "invalid daemon config "@ + path@ + ": "@ + source@,
        *error matches DaemonConfigError::UnsupportedVersion { path, version } ==> r@
            == "invalid daemon config "@ + path@ + ": version "@ + decimal(version as nat)
            + " is unsupported (expected 1)"@,
        *error matches DaemonConfigError::InvalidValue { path, message } ==> r@
            == "invalid daemon config "@ + path@ + ": "@ + message@,
{
}

/// A lower-case letter.
pub open spec fn small(c: char) -> bool {
    'a' <= c && c <= 'z'
}

/// A name of dotted segments, each of which starts with a lower-case letter and goes on
/// in lower-case letters, digits and hyphens.
pub open spec fn dotted_name(s: Seq<char>) -> bool {
    &&& s.len() > 0
    &&& small(s[0])
    &&& forall|i: int|
        0 <= i < s.len() ==> small(#[trigger] s[i]) || ('0' <= s[i] && s[i] <= '9') || s[i] == '-'
            || s[i] == '.'
    &&& forall|i: int|
        0 <= i < s.len() && #[trigger] s[i] == '.' ==> i + 1 < s.len() && small(s[i + 1])
}

proof fn a_logger_name_is_a_dotted_name(s: Seq<char>)
    ensures
        logger_name(s) <==> dotted_name(s),
{
    if logger_name(s) {
        assert(fits_name(s, 0));
        assert forall|i: int| 0 <= i < s.len() implies small(#[trigger] s[i]) || ('0' <= s[i]
            && s[i] <= '9') || s[i] == '-' || s[i] == '.' by {
            assert(fits_name(s, i));
        }
        assert forall|i: int| 0 <= i < s.len() && #[trigger] s[i] == '.' implies i + 1 < s.len()
            && small(s[i + 1]) by {
            if i + 1 < s.len() {
                assert(fits_name(s, i + 1));
            }
        }
    }
    if dotted_name(s) {
        assert forall|i: int| 0 <= i < s.len() implies #[trigger] fits_name(s, i) by {
            let _ = s[i];
            if i > 0 {
                let _ = s[i - 1];
            }
        }
        if s.last() == '.' {
            assert(s[s.len() - 1] == '.');
        }
    }
}

/// A level that exists.
pub open spec fn is_level(s: Seq<char>) -> bool {
    s == "off"@ || s == "error"@ || s == "warn"@ || s == "info"@ || s == "debug"@ || s == "trace"@
}

/// An accepted logging block has a level that exists, and tags that are dotted names with
/// levels that exist; a block of nothing else is accepted.
pub proof fn which_logging_blocks_are_accepted(
    raw: &RawLoggingConfig,
    defaults: &LoggingDefaults,
    owner: &str,
    r: Result<LoggingConfig, String>,
    i: int,
)
    requires
        call_ensures(parse_logging_config, (raw, defaults, owner), r),
    ensures
        r matches Ok(log) ==> is_level(log.level@) && log.retention.max_file_mb > 0
            && log.alarm_segment_mb > 0 && (0 <= i < log.tags@.len() ==> dotted_name(
            log.tags@[i].0@,
        ) && is_level(log.tags@[i].1@)),
        (raw.level matches Some(level) ==> is_level(level@)) && (forall|k: int|
            0 <= k < by_key(raw.tags@).len() ==> dotted_name((#[trigger] by_key(raw.tags@)[k]).0@)
                && is_level(by_key(raw.tags@)[k].1@)) && (raw.max_file_mb matches Some(mb) ==> mb
            > 0) && (raw.max_file_mb is None ==> defaults.retention.max_file_mb > 0) && (
        raw.alarm_segment_mb matches Some(mb) ==> mb > 0) && (raw.alarm_segment_mb is None
            ==> defaults.alarm_segment_mb > 0) ==> r is Ok,
{
    let tags = pairs(by_key(raw.tags@));
    let rule = tag_rule(owner@);
    no_problem_means_all_pass(tags, rule);
    if r is Ok {
        let log = r->Ok_0;
        assert(pairs(log.tags@) == tags);
        assert(pairs(log.tags@).len() == log.tags@.len());
        if 0 <= i < log.tags@.len() {
            assert(tags[i] == (log.tags@[i].0@, log.tags@[i].1@));
            assert(rule(tags[i]) is None);
            a_logger_name_is_a_dotted_name(log.tags@[i].0@);
        }
    }
    if forall|k: int|
        0 <= k < by_key(raw.tags@).len() ==> dotted_name((#[trigger] by_key(raw.tags@)[k]).0@)
            && is_level(by_key(raw.tags@)[k].1@) {
        assert forall|k: int| 0 <= k < tags.len() implies rule(#[trigger] tags[k]) is None by {
            let tag = by_key(raw.tags@)[k];
            assert(tags[k] == (tag.0@, tag.1@));
            a_logger_name_is_a_dotted_name(tag.0@);
        }
    }
}

/// A segment is kept as long and grows as large as the policy says.
pub proof fn a_segment_is_kept_by_the_policy(log: &LoggingConfig, r: SegmentRetention)
    requires
        call_ensures(LoggingConfig::segment_retention, (log,), r),
    ensures
        r.max_age_days == log.retention.max_age_days,
        r.alarm_segment_mb == log.alarm_segment_mb,
{
}

/// The switches of a file are those of its modules.
pub proof fn the_switches_are_those_of_the_modules(
    modules: &Vec<ConfiguredModule>,
    r: Vec<(String, bool)>,
    i: int,
)
    requires
        call_ensures(switches, (modules,), r),
    ensures
        r@.len() == modules@.len(),
        0 <= i < modules@.len() ==> r@[i].0@ == modules@[i].module_id@ && r@[i].1
            == modules@[i].enabled,
{
    let wanted = enabled_modules(module_views(modules@));
    assert(switch_views(r@).len() == r@.len());
    assert(wanted.len() == modules@.len());
    if 0 <= i < modules@.len() {
        assert(switch_views(r@)[i] == (r@[i].0@, r@[i].1));
        assert(module_views(modules@)[i] == modules@[i]@);
        assert(wanted[i] == (modules@[i].module_id@, modules@[i].enabled));
    }
}

/// A block of a module that is refused refuses the file in its own words, where no module
/// before it is wrong: its health before all else, its restarts and its logging once the
/// rest of the record is right.
pub proof fn a_refused_block_refuses_the_file(
    raw: RawDaemonConfig,
    defaults: &ConfigDefaults,
    path: &str,
    r: Result<DaemonConfig, DaemonConfigError>,
    i: int,
    id: &str,
    text: String,
)
    requires
        call_ensures(parse_doc, (raw, defaults, path), r),
        raw.version == 1,
        raw.log is None,
        raw.route_bind_relay_timeout_ms != Some(0u64),
        0 <= i < by_key(raw.modules@).len(),
        by_key(raw.modules@)[i].module_id@ == id@,
        forall|k: int|
            0 <= k < i ==> module_of(
                #[trigger] by_key(raw.modules@)[k],
                defaults.logging,
                defaults.health@,
                inherited_of(raw, None),
            ) is Ok,
    ensures
        ({
            let own = by_key(raw.modules@)[i];
            let right = own.health is None && own.path_hazard is None
                && own.route_bind_relay_timeout_ms != Some(0u64) && own.protocol is None;
            &&& own.health matches Some(block) ==> (call_ensures(
                parse_health_config,
                (&block, &defaults.health, id),
                Err::<HealthConfig, String>(text),
            ) ==> value_refused(r, path@, text@))
            &&& right && call_ensures(
                parse_restart_config,
                (&own.restart, id),
                Err::<RestartPolicy, String>(text),
            ) ==> value_refused(r, path@, text@)
        }),
{
    the_first_wrong_module_decides(
        by_key(raw.modules@),
        defaults.logging,
        defaults.health@,
        inherited_of(raw, None),
        i,
    );
}

/// A file without modules and reservations is accepted exactly where its storage, if it
/// names any, stands at an absolute path; a relative one is named in the refusal.
pub proof fn a_bare_file_needs_an_absolute_home(
    raw: RawDaemonConfig,
    defaults: &ConfigDefaults,
    path: &str,
    r: Result<DaemonConfig, DaemonConfigError>,
)
    requires
        call_ensures(parse_doc, (raw, defaults, path), r),
        raw.version == 1,
        raw.log is None,
        raw.route_bind_relay_timeout_ms != Some(0u64),
        raw.modules@.len() == 0,
        raw.reserved_capabilities@.len() == 0,
        raw.admission_facts_carrier_module_id is None,
    ensures
        raw.storage is None ==> r is Ok,
        raw.storage matches Some(RawStorageConfig::Sqlite { data_home }) ==> {
            let home = match data_home {
                Some(own) => own@,
                None => defaults.data_home@,
            };
            &&& r is Ok <==> absolute(defaults.windows, home)
            &&& !absolute(defaults.windows, home) ==> value_refused(
                r,
                path@,
                "storage data home resolved to the relative path "@ + home
                    + " (no absolute XDG_DATA_HOME, APPDATA, USERPROFILE, or HOME in the daemon's environment); refusing to serve a cwd-relative storage descriptor to modules. Set XDG_DATA_HOME or HOME to an absolute path, or set storage.data_home in this file."@,
            )
        },
{
    assert(by_key(raw.modules@) =~= Seq::empty());
    assert(by_key(raw.reserved_capabilities@) =~= Seq::empty());
    let none = Seq::<crate::daemon_config::module::ModuleView>::empty();
    assert(places(0) =~= Seq::empty());
    assert(prefixes_problem(none) is None);
}

/// A slash at the end of the data home makes no difference to where a store stands.
pub proof fn a_slash_behind_the_data_home_makes_no_difference(
    base: Seq<char>,
    data_home: String,
    module_id: &str,
    r: StorageDescriptor,
)
    requires
        call_ensures(
            StorageConfig::descriptor_for,
            (&StorageConfig::Sqlite { data_home }, module_id),
            r,
        ),
        base.len() > 0,
        base.last() != '/',
        data_home@ == base.push('/') || data_home@ == base,
    ensures
        r.path@ == base + "/cortexkit/"@ + module_id@ + "/store.db"@,
{
    reveal_with_fuel(without_trailing, 3);
    assert(base.push('/').drop_last() =~= base);
}

/// What reading a file gives is what parsing it gives.
pub proof fn reading_is_parsing(
    path: &str,
    raw: RawDaemonConfig,
    defaults: &ConfigDefaults,
    r: Result<Option<DaemonConfig>, DaemonConfigError>,
    parsed: Result<DaemonConfig, DaemonConfigError>,
)
    requires
        call_ensures(load, (path, ConfigDocument::Parsed(raw), defaults), r),
        call_ensures(parse_doc, (raw, defaults, path), parsed),
    ensures
        parsed matches Ok(config) ==> (r matches Ok(Some(read)) && read@ == config@),
        parsed matches Err(e) ==> (r matches Err(told) && told@ == e@),
{
}

/// The daemon's own logging block is refused in its own words, both where it is read
/// first and where the whole file is.
pub proof fn a_refused_daemon_log_refuses_the_file(
    path: &str,
    raw: RawDaemonConfig,
    block: RawLoggingConfig,
    defaults: &ConfigDefaults,
    owner: &str,
    log: Result<LoggingConfig, String>,
    early: Result<Option<LoggingConfig>, DaemonConfigError>,
    r: Result<DaemonConfig, DaemonConfigError>,
)
    requires
        raw.version == 1,
        raw.log == Some(block),
        owner@ == "daemon log"@,
        call_ensures(parse_logging_config, (&block, &defaults.logging, owner), log),
        call_ensures(load_logging, (path, ConfigDocument::Parsed(raw), &defaults.logging), early),
        call_ensures(parse_doc, (raw, defaults, path), r),
    ensures
        log matches Err(text) ==> value_refused(r, path@, text@) && (
        early matches Err(DaemonConfigError::InvalidValue { path: at, message }) && at@ == path@
            && message@ == text@),
        log matches Ok(policy) ==> (early matches Ok(Some(read)) && read@ == policy@),
{
}

/// What a module's record needs to be right, key by key.
pub open spec fn record_is_right(own: RawModuleConfig, defaults: ConfigDefaults) -> bool {
    &&& own.path_hazard is None
    &&& own.route_bind_relay_timeout_ms != Some(0u64)
    &&& own.protocol matches Some(text) ==> text@ == "subc"@ || (text@ == "none"@ && !own.reserved)
    &&& own.health matches Some(block) ==> block.cadence_ms != Some(0u64) && block.deadline_ms
        != Some(0u64) && block.failure_threshold != Some(0u32) && block.on_degraded != Some(
        HealthAction::Restart,
    )
    &&& own.restart matches Some(block) ==> block.window_secs != Some(0u64) && {
        let backoff_ms = match block.backoff_ms {
            Some(ms) => ms as int,
            None => 100,
        };
        let max_backoff_ms = match block.max_backoff_ms {
            Some(ms) => ms as int,
            None => 30_000,
        };
        backoff_ms <= max_backoff_ms
    }
    &&& own.log matches Some(block) ==> {
        &&& block.level matches Some(level) ==> is_level(level@)
        &&& forall|k: int|
            0 <= k < by_key(block.tags@).len() ==> dotted_name(
                (#[trigger] by_key(block.tags@)[k]).0@,
            ) && is_level(by_key(block.tags@)[k].1@)
        &&& block.max_file_mb matches Some(mb) ==> mb > 0
        &&& block.max_file_mb is None ==> defaults.logging.retention.max_file_mb > 0
        &&& block.alarm_segment_mb matches Some(mb) ==> mb > 0
        &&& block.alarm_segment_mb is None ==> defaults.logging.alarm_segment_mb > 0
    }
}

proof fn a_right_record_is_accepted(
    own: RawModuleConfig,
    defaults: ConfigDefaults,
    inherited: InheritedView,
)
    requires
        record_is_right(own, defaults),
    ensures
        module_of(own, defaults.logging, defaults.health@, inherited) is Ok,
{
    if own.log is Some {
        let block = own.log->0;
        let tags = pairs(by_key(block.tags@));
        let rule = tag_rule("module '"@ + own.module_id@ + "' log"@);
        assert forall|k: int| 0 <= k < tags.len() implies rule(#[trigger] tags[k]) is None by {
            let tag = by_key(block.tags@)[k];
            assert(tags[k] == (tag.0@, tag.1@));
            a_logger_name_is_a_dotted_name(tag.0@);
        }
        no_problem_means_all_pass(tags, rule);
    }
}

proof fn right_records_are_accepted(
    raw: Seq<RawModuleConfig>,
    defaults: ConfigDefaults,
    inherited: InheritedView,
)
    requires
        forall|k: int| 0 <= k < raw.len() ==> record_is_right(#[trigger] raw[k], defaults),
    ensures
        ({
            let r = modules_of(raw, defaults.logging, defaults.health@, inherited);
            &&& r is Ok
            &&& r->Ok_0.len() == raw.len()
            &&& forall|k: int|
                0 <= k < raw.len() ==> (#[trigger] r->Ok_0[k]).module_id == raw[k].module_id@
                    && r->Ok_0[k].enabled == raw[k].enabled && r->Ok_0[k].reserved
                    == raw[k].reserved && r->Ok_0[k].reserved_prefixes == texts(
                    raw[k].reserved_prefixes@,
                )
        }),
    decreases raw.len(),
{
    if raw.len() > 0 {
        let before = raw.drop_last();
        let last = raw.len() - 1;
        assert forall|k: int| 0 <= k < before.len() implies record_is_right(
            #[trigger] before[k],
            defaults,
        ) by {
            assert(before[k] == raw[k]);
        }
        right_records_are_accepted(before, defaults, inherited);
        assert(record_is_right(raw[last], defaults));
        a_right_record_is_accepted(raw[last], defaults, inherited);
        let was = modules_of(before, defaults.logging, defaults.health@, inherited)->Ok_0;
        let now = modules_of(raw, defaults.logging, defaults.health@, inherited)->Ok_0;
        assert forall|k: int| 0 <= k < raw.len() implies (#[trigger] now[k]).module_id
            == raw[k].module_id@ && now[k].enabled == raw[k].enabled && now[k].reserved
            == raw[k].reserved && now[k].reserved_prefixes == texts(raw[k].reserved_prefixes@) by {
            if k < last {
                assert(now[k] == was[k]);
                assert(before[k] == raw[k]);
            }
        }
    }
}

/// A right file is accepted: one of the daemon's version whose records are right, in
/// which each owner of prefixes is reserved, each prefix ends in a colon and is the start
/// of no id, no two owners' prefixes overlap, each reservation names a capability and a
/// module, a carrier of admission facts is an enabled reserved module with targets, and
/// whose storage stands at an absolute path.
pub proof fn a_right_file_is_accepted(
    raw: RawDaemonConfig,
    defaults: &ConfigDefaults,
    path: &str,
    r: Result<DaemonConfig, DaemonConfigError>,
    carrier: int,
)
    requires
        call_ensures(parse_doc, (raw, defaults, path), r),
        raw.version == 1,
        raw.log is None,
        raw.route_bind_relay_timeout_ms != Some(0u64),
        forall|k: int|
            0 <= k < by_key(raw.modules@).len() ==> record_is_right(
                #[trigger] by_key(raw.modules@)[k],
                *defaults,
            ),
        forall|i: int, p: int|
            #![trigger by_key(raw.modules@)[i].reserved_prefixes@[p]]
            0 <= i < by_key(raw.modules@).len() && 0 <= p < by_key(
                raw.modules@,
            )[i].reserved_prefixes@.len() ==> by_key(raw.modules@)[i].reserved && by_key(
                raw.modules@,
            )[i].reserved_prefixes@[p]@.len() > 0 && by_key(
                raw.modules@,
            )[i].reserved_prefixes@[p]@.last() == ':',
        forall|i: int, p: int, j: int|
            #![trigger by_key(raw.modules@)[i].reserved_prefixes@[p], by_key(raw.modules@)[j]]
            0 <= i < by_key(raw.modules@).len() && 0 <= p < by_key(
                raw.modules@,
            )[i].reserved_prefixes@.len() && 0 <= j < by_key(raw.modules@).len() ==> !is_prefix(
                by_key(raw.modules@)[i].reserved_prefixes@[p]@,
                by_key(raw.modules@)[j].module_id@,
            ),
        forall|i: int, p: int, j: int, q: int|
            #![trigger by_key(raw.modules@)[i].reserved_prefixes@[p], by_key(raw.modules@)[j].reserved_prefixes@[q]]
            0 <= i < by_key(raw.modules@).len() && 0 <= p < by_key(
                raw.modules@,
            )[i].reserved_prefixes@.len() && 0 <= j < by_key(raw.modules@).len() && 0 <= q < by_key(
                raw.modules@,
            )[j].reserved_prefixes@.len() && i != j ==> !is_prefix(
                by_key(raw.modules@)[i].reserved_prefixes@[p]@,
                by_key(raw.modules@)[j].reserved_prefixes@[q]@,
            ),
        forall|k: int|
            0 <= k < by_key(raw.reserved_capabilities@).len() ==> (#[trigger] by_key(
                raw.reserved_capabilities@,
            )[k]).valid_identifier && trimmed(
                by_key(raw.reserved_capabilities@)[k].module_id@,
            ).len() > 0 && by_key(raw.reserved_capabilities@)[k].path_hazard is None,
        raw.admission_facts_carrier_module_id matches Some(id) ==> {
            &&& 0 <= carrier < by_key(raw.modules@).len()
            &&& by_key(raw.modules@)[carrier].module_id@ == id@
            &&& by_key(raw.modules@)[carrier].enabled
            &&& by_key(raw.modules@)[carrier].reserved
            &&& raw.admission_facts_targets is Some
            &&& raw.admission_facts_targets->0@.len() > 0
            &&& forall|k: int|
                0 <= k < raw.admission_facts_targets->0@.len() ==> (
                #[trigger] raw.admission_facts_targets->0@[k])@.len() > 0
        },
        raw.storage matches Some(RawStorageConfig::Sqlite { data_home }) ==> absolute(
            defaults.windows,
            match data_home {
                Some(own) => own@,
                None => defaults.data_home@,
            },
        ),
    ensures
        r is Ok,
{
    let records = by_key(raw.modules@);
    let inherited = inherited_of(raw, None);
    right_records_are_accepted(records, *defaults, inherited);
    let modules = modules_of(records, defaults.logging, defaults.health@, inherited)->Ok_0;
    assert forall|i: int| 0 <= i < modules.len() implies owner_rule()(
        #[trigger] modules[i],
    ) is None by {
        let prefixes = modules[i].reserved_prefixes;
        let rule = boundary_rule(modules[i].module_id);
        assert forall|p: int| 0 <= p < prefixes.len() implies rule(#[trigger] prefixes[p]) is None by {
            assert(prefixes[p] == records[i].reserved_prefixes@[p]@);
        }
        no_problem_means_all_pass(prefixes, rule);
        if prefixes.len() > 0 {
            assert(prefixes[0] == records[i].reserved_prefixes@[0]@);
        }
    }
    no_problem_means_all_pass(modules, owner_rule());
    assert forall|i: int| 0 <= i < modules.len() implies reach_rule(modules)(
        #[trigger] modules[i],
    ) is None by {
        let prefixes = modules[i].reserved_prefixes;
        let rule = prefix_rule(modules, modules[i].module_id);
        assert forall|p: int| 0 <= p < prefixes.len() implies rule(#[trigger] prefixes[p]) is None by {
            assert(prefixes[p] == records[i].reserved_prefixes@[p]@);
            let inner = collision_rule(modules[i].module_id, prefixes[p]);
            assert forall|j: int| 0 <= j < modules.len() implies inner(
                #[trigger] modules[j],
            ) is None by {
                assert(modules[j].module_id == records[j].module_id@);
            }
            no_problem_means_all_pass(modules, inner);
        }
        no_problem_means_all_pass(prefixes, rule);
    }
    no_problem_means_all_pass(modules, reach_rule(modules));
    let all = places(modules.len());
    let following = following_rule(modules);
    assert forall|i: int| 0 <= i < all.len() implies following(#[trigger] all[i]) is None by {
        assert(all[i] == i);
        let rest = modules.skip(i + 1);
        assert forall|k: int| 0 <= k < rest.len() implies pair_rule(modules[i])(
            #[trigger] rest[k],
        ) is None by {
            let j = i + 1 + k;
            assert(rest[k] == modules[j]);
            let lefts = modules[i].reserved_prefixes;
            let rights = modules[j].reserved_prefixes;
            let against = against_rule(modules[i].module_id, modules[j]);
            assert forall|p: int| 0 <= p < lefts.len() implies against(
                #[trigger] lefts[p],
            ) is None by {
                assert(lefts[p] == records[i].reserved_prefixes@[p]@);
                let inner = overlap_rule(modules[i].module_id, lefts[p], modules[j].module_id);
                assert forall|q: int| 0 <= q < rights.len() implies inner(
                    #[trigger] rights[q],
                ) is None by {
                    assert(rights[q] == records[j].reserved_prefixes@[q]@);
                }
                no_problem_means_all_pass(rights, inner);
            }
            no_problem_means_all_pass(lefts, against);
        }
        no_problem_means_all_pass(rest, pair_rule(modules[i]));
    }
    no_problem_means_all_pass(all, following);
    let bindings = by_key(raw.reserved_capabilities@);
    assert forall|k: int| 0 <= k < bindings.len() implies binding_rule()(
        #[trigger] bindings[k],
    ) is None by {}
    no_problem_means_all_pass(bindings, binding_rule());
    if raw.admission_facts_carrier_module_id is Some {
        let id = raw.admission_facts_carrier_module_id->0@;
        by_key_holds_the_latest_in_order(raw.modules@);
        assert forall|k: int| 0 <= k < modules.len() && k != carrier implies (
        #[trigger] modules[k]).module_id != id by {
            let keys = keys_of(records);
            assert(keys[k] == records[k].module_id@ && keys[carrier] == records[carrier].module_id@);
            if k < carrier {
                assert(before(keys[k], keys[carrier]));
            } else {
                assert(before(keys[carrier], keys[k]));
            }
            before_irreflexive(id);
        }
        the_only_one_of_a_name_is_found(modules, carrier, id);
        let targets = raw.admission_facts_targets->0@;
        assert forall|k: int| 0 <= k < texts(targets).len() implies (
        #[trigger] texts(targets)[k]).len() > 0 by {
            assert(targets[k]@.len() > 0);
        }
        assert(names_targets(texts(targets)));
    }
}

proof fn the_only_one_of_a_name_is_found(modules: Seq<ModuleView>, i: int, id: Seq<char>)
    requires
        forall|k: int|
            0 <= k < modules.len() && k != i ==> (#[trigger] modules[k]).module_id != id,
    ensures
        0 <= i < modules.len() && modules[i].module_id == id ==> module_named(modules, id) == Some(
            modules[i],
        ),
        !(0 <= i < modules.len()) ==> module_named(modules, id) is None,
    decreases modules.len(),
{
    if modules.len() > 0 {
        let rest = modules.drop_last();
        let last = modules.len() - 1;
        assert forall|k: int| 0 <= k < rest.len() && k != i implies (#[trigger] rest[k]).module_id
            != id by {
            assert(rest[k] == modules[k]);
        }
        the_only_one_of_a_name_is_found(rest, i, id);
        if 0 <= i < last {
            assert(rest[i] == modules[i]);
        }
        if i != last {
            assert(modules[last].module_id != id);
        }
    }
}

/// A module's logging block is refused in its own words, under the module's name, once
/// the rest of the record is right.
pub proof fn a_refused_module_log_refuses_the_file(
    raw: RawDaemonConfig,
    defaults: &ConfigDefaults,
    path: &str,
    r: Result<DaemonConfig, DaemonConfigError>,
    i: int,
    block: RawLoggingConfig,
    owner: &str,
    text: String,
)
    requires
        call_ensures(parse_doc, (raw, defaults, path), r),
        raw.version == 1,
        raw.log is None,
        raw.route_bind_relay_timeout_ms != Some(0u64),
        0 <= i < by_key(raw.modules@).len(),
        forall|k: int|
            0 <= k < i ==> module_of(
                #[trigger] by_key(raw.modules@)[k],
                defaults.logging,
                defaults.health@,
                inherited_of(raw, None),
            ) is Ok,
        by_key(raw.modules@)[i].log == Some(block),
        record_is_right(RawModuleConfig { log: None, ..by_key(raw.modules@)[i] }, *defaults),
        owner@ == "module '"@ + by_key(raw.modules@)[i].module_id@ + "' log"@,
        call_ensures(
            parse_logging_config,
            (&block, &defaults.logging, owner),
            Err::<LoggingConfig, String>(text),
        ),
    ensures
        value_refused(r, path@, text@),
{
    the_first_wrong_module_decides(
        by_key(raw.modules@),
        defaults.logging,
        defaults.health@,
        inherited_of(raw, None),
        i,
    );
    a_right_record_is_accepted(
        RawModuleConfig { log: None, ..by_key(raw.modules@)[i] },
        *defaults,
        inherited_of(raw, None),
    );
}

/// The first wrong tag of a logging block is named: by its key where that is no dotted
/// name, else by its level.
pub proof fn the_first_wrong_tag_is_named(
    raw: &RawLoggingConfig,
    defaults: &LoggingDefaults,
    owner: &str,
    r: Result<LoggingConfig, String>,
    i: int,
)
    requires
        call_ensures(parse_logging_config, (raw, defaults, owner), r),
        raw.level matches Some(level) ==> is_level(level@),
        0 <= i < by_key(raw.tags@).len(),
        forall|k: int|
            0 <= k < i ==> dotted_name((#[trigger] by_key(raw.tags@)[k]).0@) && is_level(
                by_key(raw.tags@)[k].1@,
            ),
    ensures
        ({
            let tag = by_key(raw.tags@)[i];
            &&& !dotted_name(tag.0@) ==> r is Err && r->Err_0@ == owner@ + ".tags key "@ + quoted(
                tag.0@,
            ) + " is not a logger name (dotted segments of [a-z][a-z0-9-]*)"@
            &&& dotted_name(tag.0@) && !is_level(tag.1@) ==> r is Err && r->Err_0@ == owner@
                + ".tags."@ + tag.0@
                + " must be one of off, error, warn, info, debug, trace; got "@ + quoted(tag.1@)
        }),
{
    let tags = pairs(by_key(raw.tags@));
    let rule = tag_rule(owner@);
    let right = tags.take(i);
    assert forall|k: int| 0 <= k < right.len() implies rule(#[trigger] right[k]) is None by {
        let tag = by_key(raw.tags@)[k];
        assert(right[k] == (tag.0@, tag.1@));
        a_logger_name_is_a_dotted_name(tag.0@);
    }
    no_problem_means_all_pass(right, rule);
    let tag = by_key(raw.tags@)[i];
    assert(tags[i] == (tag.0@, tag.1@));
    a_logger_name_is_a_dotted_name(tag.0@);
    if rule(tags[i]) is Some {
        problem_found(tags, rule, i);
    }
}

/// Across the file the reservations are looked at before the carrier of admission facts,
/// and the carrier before the storage: here in a file without modules.
pub proof fn in_which_order_a_file_is_judged(
    raw: RawDaemonConfig,
    defaults: &ConfigDefaults,
    path: &str,
    r: Result<DaemonConfig, DaemonConfigError>,
)
    requires
        call_ensures(parse_doc, (raw, defaults, path), r),
        raw.version == 1,
        raw.log is None,
        raw.route_bind_relay_timeout_ms != Some(0u64),
        raw.modules@.len() == 0,
        raw.admission_facts_carrier_module_id is Some,
    ensures
        by_key(raw.reserved_capabilities@).len() > 0 && !by_key(
            raw.reserved_capabilities@,
        )[0].valid_identifier ==> value_refused(
            r,
            path@,
            "reserved_capabilities key "@ + quoted(
                by_key(raw.reserved_capabilities@)[0].capability@,
            ) + " is not a valid capability identifier"@,
        ),
        raw.reserved_capabilities@.len() == 0 ==> value_refused(
            r,
            path@,
            "admission_facts_carrier_module_id '"@ + raw.admission_facts_carrier_module_id->0@
                + "' must name a configured module"@,
        ),
{
    assert(by_key(raw.modules@) =~= Seq::empty());
    let none = Seq::<ModuleView>::empty();
    assert(places(0) =~= Seq::empty());
    assert(prefixes_problem(none) is None);
    let bindings = by_key(raw.reserved_capabilities@);
    if bindings.len() > 0 && !bindings[0].valid_identifier {
        assert(bindings.take(0) =~= Seq::empty());
        problem_found(bindings, binding_rule(), 0);
    }
    if raw.reserved_capabilities@.len() == 0 {
        assert(bindings =~= Seq::empty());
    }
}

} // verus!
