//! From a configuration file to the configuration that the daemon runs with.
use crate::daemon_config::logging::{
    logging_of, parse_logging_config, LoggingConfig, LoggingDefaults, LoggingView, RawLoggingConfig,
};
use crate::daemon_config::module::{log_view, module_views, ConfiguredModule, ModuleView};
use crate::daemon_config::policy::{
    health_of, parse_health_config, parse_restart_config, restart_of, what_a_restart_block_holds,
    HealthConfig, HealthView, RawHealthConfig, RawRestartConfig,
};
use crate::daemon_config::validate::{
    admission_facts_problem, an_accepted_carrier_is_a_reserved_module, binding_rule,
    prefixes_problem, text_list, validate_admission_facts_config, validate_reserved_capabilities,
    validate_reserved_prefixes, RawReservedCapability,
};
use crate::daemon_config::{ModuleProtocol, StorageConfig};
use crate::key_order::{
    by_key, by_key_holds_the_latest_in_order, in_key_order, keys_of, with_entry, Keyed,
};
use crate::paths::{absolute, is_absolute};
use crate::problems::first_problem;
use crate::text::{
    copy_pairs, copy_texts, decimal, decimal_text, escape_debug, escaped, pairs,
    quote_debug, quoted, same, text_option, texts,
};
use crate::text_map::ascending;
use vstd::prelude::*;

verus! {

/// The one version of the file that is read.
pub const SUPPORTED_CONFIG_VERSION: u32 = 1;

/// Why a bind budget of zero is refused: it would fail every bind. A drain budget
/// of zero is another thing, and stands.
pub const ROUTE_BIND_RELAY_ZERO_MESSAGE: &'static str =
    "route_bind_relay_timeout_ms must be greater than 0 (a zero budget fails every bind to the module; to make a module unreachable use enabled: false)";

/// A module as it stands in the file.
#[derive(Debug)]
pub struct RawModuleConfig {
    pub module_id: String,
    /// Why the id cannot be part of a path, if it cannot.
    pub path_hazard: Option<String>,
    pub program: String,
    pub args: Vec<String>,
    pub env: Vec<(String, String)>,
    pub log: Option<RawLoggingConfig>,
    pub enabled: bool,
    pub reserved: bool,
    pub reserved_prefixes: Vec<String>,
    pub protocol: Option<String>,
    pub health: Option<RawHealthConfig>,
    pub drain_timeout_ms: Option<u64>,
    pub route_bind_relay_timeout_ms: Option<u64>,
    pub restart: Option<RawRestartConfig>,
}

impl Keyed for RawModuleConfig {
    open spec fn key_view(&self) -> Seq<char> {
        self.module_id@
    }

    fn key(&self) -> (r: &str) {
        self.module_id.as_str()
    }
}

/// A storage section as it stands in the file.
#[derive(Debug)]
pub enum RawStorageConfig {
    Sqlite { data_home: Option<String> },
}

/// A file as it stands. The order of its modules, its reservations and a module's
/// variables says nothing, and a later one takes the place of an earlier one of the
/// same name.
#[derive(Debug)]
pub struct RawDaemonConfig {
    pub version: u32,
    pub port: Option<u16>,
    pub drain_timeout_ms: Option<u64>,
    pub route_bind_relay_timeout_ms: Option<u64>,
    pub log: Option<RawLoggingConfig>,
    pub modules: Vec<RawModuleConfig>,
    pub storage: Option<RawStorageConfig>,
    pub admission_facts_carrier_module_id: Option<String>,
    pub admission_facts_targets: Option<Vec<String>>,
    pub reserved_capabilities: Vec<RawReservedCapability>,
}

/// What an absent key means.
#[derive(Debug)]
pub struct ConfigDefaults {
    pub logging: LoggingDefaults,
    pub health: HealthConfig,
    /// The system is Windows, where other paths are absolute.
    pub windows: bool,
    /// The data home that the environment names.
    pub data_home: String,
}

/// The daemon's configuration.
#[derive(Debug)]
pub struct DaemonConfig {
    pub path: String,
    pub port: Option<u16>,
    /// How long a drain waits where a module does not say, in milliseconds.
    pub drain_timeout_ms: Option<u64>,
    /// How long a bind may take where a module does not say, in milliseconds.
    pub route_bind_relay_timeout_ms: Option<u64>,
    pub modules: Vec<ConfiguredModule>,
    pub storage: Option<StorageConfig>,
    /// The one module whose process may carry admission facts.
    pub admission_facts_carrier_module_id: Option<String>,
    /// The modules that may receive them.
    pub admission_facts_targets: Option<Vec<String>>,
    /// Capabilities, each with the one module that it is reserved to.
    pub reserved_capabilities: Vec<(String, String)>,
}

/// A [`DaemonConfig`] over characters.
#[verifier::ext_equal]
pub struct ConfigView {
    pub path: Seq<char>,
    pub port: Option<u16>,
    pub drain_timeout_ms: Option<u64>,
    pub route_bind_relay_timeout_ms: Option<u64>,
    pub modules: Seq<ModuleView>,
    pub data_home: Option<Seq<char>>,
    pub admission_facts_carrier_module_id: Option<Seq<char>>,
    pub admission_facts_targets: Option<Seq<Seq<char>>>,
    pub reserved_capabilities: Seq<(Seq<char>, Seq<char>)>,
}

/// The data home of a storage section.
pub open spec fn storage_home(storage: Option<StorageConfig>) -> Option<Seq<char>> {
    match storage {
        Some(StorageConfig::Sqlite { data_home }) => Some(data_home@),
        None => None,
    }
}

impl View for DaemonConfig {
    type V = ConfigView;

    open spec fn view(&self) -> ConfigView {
        ConfigView {
            path: self.path@,
            port: self.port,
            drain_timeout_ms: self.drain_timeout_ms,
            route_bind_relay_timeout_ms: self.route_bind_relay_timeout_ms,
            modules: module_views(self.modules@),
            data_home: storage_home(self.storage),
            admission_facts_carrier_module_id: text_option(self.admission_facts_carrier_module_id),
            admission_facts_targets: text_list(self.admission_facts_targets),
            reserved_capabilities: pairs(self.reserved_capabilities@),
        }
    }
}

/// Why there is no configuration.
#[derive(Debug)]
pub enum DaemonConfigError {
    Read { path: String, source: String },
    InvalidJsonc { path: String, message: String },
    InvalidJson { path: String, source: String },
    UnsupportedVersion { path: String, version: u32 },
    InvalidValue { path: String, message: String },
}

/// A [`DaemonConfigError`] over characters.
#[allow(inconsistent_fields)]
#[verifier::ext_equal]
pub enum ConfigErrorView {
    Read { path: Seq<char>, source: Seq<char> },
    InvalidJsonc { path: Seq<char>, message: Seq<char> },
    InvalidJson { path: Seq<char>, source: Seq<char> },
    UnsupportedVersion { path: Seq<char>, version: u32 },
    InvalidValue { path: Seq<char>, message: Seq<char> },
}

impl View for DaemonConfigError {
    type V = ConfigErrorView;

    open spec fn view(&self) -> ConfigErrorView {
        match *self {
            DaemonConfigError::Read { path, source } => ConfigErrorView::Read {
                path: path@,
                source: source@,
            },
            DaemonConfigError::InvalidJsonc { path, message } => ConfigErrorView::InvalidJsonc {
                path: path@,
                message: message@,
            },
            DaemonConfigError::InvalidJson { path, source } => ConfigErrorView::InvalidJson {
                path: path@,
                source: source@,
            },
            DaemonConfigError::UnsupportedVersion { path, version } =>
                ConfigErrorView::UnsupportedVersion { path: path@, version },
            DaemonConfigError::InvalidValue { path, message } => ConfigErrorView::InvalidValue {
                path: path@,
                message: message@,
            },
        }
    }
}

/// The text of an error.
pub open spec fn config_error_text(e: ConfigErrorView) -> Seq<char> {
    match e {
        ConfigErrorView::Read { path, source } => "failed to read daemon config "@ + path + ": "@
            + source,
        ConfigErrorView::InvalidJsonc { path, message } => "invalid JSONC in daemon config "@ + path
            + ": "@ + message,
        ConfigErrorView::InvalidJson { path, source } => "invalid daemon config "@ + path + ": "@
            + source,
        ConfigErrorView::UnsupportedVersion { path, version } => "invalid daemon config "@ + path
            + ": version "@ + decimal(version as nat) + " is unsupported (expected 1)"@,
        ConfigErrorView::InvalidValue { path, message } => "invalid daemon config "@ + path + ": "@
            + message,
    }
}

fn words(head: &str, path: &str, tail: &str) -> (r: String)
    ensures
        r@ == head@ + path@ + ": "@ + tail@,
{
    String::from_str(head).concat(path).concat(": ").concat(tail)
}

impl DaemonConfigError {
    /// The text of the error.
    pub fn to_text(&self) -> (r: String)
        ensures
            r@ == config_error_text(self@),
    {
        match self {
            DaemonConfigError::Read { path, source } => words(
                "failed to read daemon config ",
                path.as_str(),
                source.as_str(),
            ),
            DaemonConfigError::InvalidJsonc { path, message } => words(
                "invalid JSONC in daemon config ",
                path.as_str(),
                message.as_str(),
            ),
            DaemonConfigError::InvalidJson { path, source } => words(
                "invalid daemon config ",
                path.as_str(),
                source.as_str(),
            ),
            DaemonConfigError::UnsupportedVersion { path, version } => String::from_str(
                "invalid daemon config ",
            ).concat(path.as_str()).concat(": version ").concat(
                decimal_text(*version as u64).as_str(),
            ).concat(" is unsupported (expected 1)"),
            DaemonConfigError::InvalidValue { path, message } => words(
                "invalid daemon config ",
                path.as_str(),
                message.as_str(),
            ),
        }
    }
}

/// Which protocol a module declares. An absent key and `subc` are one answer.
pub open spec fn protocol_of(raw: Option<Seq<char>>, module_id: Seq<char>) -> Result<
    ModuleProtocol,
    Seq<char>,
> {
    match raw {
        None => Ok(ModuleProtocol::Subc),
        Some(text) => if text == "subc"@ {
            Ok(ModuleProtocol::Subc)
        } else if text == "none"@ {
            Ok(ModuleProtocol::NoProtocol)
        } else {
            Err(
                "module '"@ + escaped(module_id) + "' declares protocol "@ + quoted(text)
                    + "; supported values are \"subc\" (the default when the key is absent) and \"none\""@,
            )
        },
    }
}

/// Reads which protocol a module declares.
pub fn parse_module_protocol(raw: &Option<String>, module_id: &str) -> (r: Result<
    ModuleProtocol,
    String,
>)
    ensures
        r matches Ok(p) ==> protocol_of(text_option(*raw), module_id@) == Ok::<_, Seq<char>>(p),
        r matches Err(text) ==> protocol_of(text_option(*raw), module_id@) == Err::<
            ModuleProtocol,
            _,
        >(text@),
{
    match raw {
        None => Ok(ModuleProtocol::Subc),
        Some(text) => if same(text.as_str(), "subc") {
            Ok(ModuleProtocol::Subc)
        } else if same(text.as_str(), "none") {
            Ok(ModuleProtocol::NoProtocol)
        } else {
            Err(
                String::from_str("module '").concat(escape_debug(module_id).as_str()).concat(
                    "' declares protocol ",
                ).concat(quote_debug(text.as_str()).as_str()).concat(
                    "; supported values are \"subc\" (the default when the key is absent) and \"none\"",
                ),
            )
        },
    }
}

/// What a module takes over from the daemon.
pub struct InheritedView {
    pub log: Option<LoggingView>,
    pub drain_timeout_ms: Option<u64>,
    pub route_bind_relay_timeout_ms: Option<u64>,
}

/// The module's value, or else the daemon's.
pub open spec fn own_or(own: Option<u64>, inherited: Option<u64>) -> Option<u64> {
    match own {
        Some(value) => Some(value),
        None => inherited,
    }
}

/// The health policy of a module.
pub open spec fn module_health(raw: RawModuleConfig, defaults: HealthView) -> Result<
    HealthView,
    Seq<char>,
> {
    match raw.health {
        Some(health) => health_of(health, defaults, raw.module_id@),
        None => Ok(defaults),
    }
}

/// The logging policy of a module.
pub open spec fn module_log(
    raw: RawModuleConfig,
    defaults: LoggingDefaults,
    inherited: Option<LoggingView>,
) -> Result<Option<LoggingView>, Seq<char>> {
    match raw.log {
        Some(log) => match logging_of(log, defaults, "module '"@ + raw.module_id@ + "' log"@) {
            Ok(log) => Ok(Some(log)),
            Err(text) => Err(text),
        },
        None => Ok(inherited),
    }
}

/// What a module of the file means, or the first thing that is wrong with it.
pub open spec fn module_of(
    raw: RawModuleConfig,
    logging: LoggingDefaults,
    health: HealthView,
    inherited: InheritedView,
) -> Result<ModuleView, Seq<char>> {
    let id = raw.module_id@;
    match module_health(raw, health) {
        Err(text) => Err(text),
        Ok(health) => match raw.path_hazard {
            Some(reason) => Err(
                "module id '"@ + escaped(id) + "' is not usable as a path component ("@ + reason@
                    + "): the daemon derives each module's store path from its id"@,
            ),
            None => if raw.route_bind_relay_timeout_ms == Some(0u64) {
                Err("module '"@ + escaped(id) + "' "@ + ROUTE_BIND_RELAY_ZERO_MESSAGE@)
            } else {
                match protocol_of(text_option(raw.protocol), id) {
                    Err(text) => Err(text),
                    Ok(protocol) => if protocol == ModuleProtocol::NoProtocol && raw.reserved {
                        Err(
                            "module '"@ + escaped(id)
                                + "' sets reserved: true with protocol: \"none\"; reserved is enforced on the module's HELLO and a protocol: \"none\" module never registers, so the reservation could never be checked"@,
                        )
                    } else {
                        match restart_of(raw.restart, id) {
                            Err(text) => Err(text),
                            Ok(restart) => match module_log(raw, logging, inherited.log) {
                                Err(text) => Err(text),
                                Ok(log) => Ok(
                                    ModuleView {
                                        module_id: id,
                                        program: raw.program@,
                                        args: texts(raw.args@),
                                        env: pairs(by_key(raw.env@)),
                                        log,
                                        enabled: raw.enabled,
                                        reserved: raw.reserved,
                                        reserved_prefixes: texts(raw.reserved_prefixes@),
                                        protocol,
                                        health,
                                        drain_timeout_ms: own_or(
                                            raw.drain_timeout_ms,
                                            inherited.drain_timeout_ms,
                                        ),
                                        route_bind_relay_timeout_ms: own_or(
                                            raw.route_bind_relay_timeout_ms,
                                            inherited.route_bind_relay_timeout_ms,
                                        ),
                                        restart,
                                    },
                                ),
                            },
                        }
                    },
                }
            },
        },
    }
}

/// What the modules of the file mean, in their order, or what is wrong with the
/// first that is wrong.
pub open spec fn modules_of(
    raw: Seq<RawModuleConfig>,
    logging: LoggingDefaults,
    health: HealthView,
    inherited: InheritedView,
) -> Result<Seq<ModuleView>, Seq<char>>
    decreases raw.len(),
{
    if raw.len() == 0 {
        Ok(Seq::empty())
    } else {
        match modules_of(raw.drop_last(), logging, health, inherited) {
            Err(text) => Err(text),
            Ok(before) => match module_of(raw.last(), logging, health, inherited) {
                Err(text) => Err(text),
                Ok(m) => Ok(before.push(m)),
            },
        }
    }
}

fn parse_module(
    raw: &RawModuleConfig,
    defaults: &ConfigDefaults,
    daemon_log: &Option<LoggingConfig>,
    drain_timeout_ms: Option<u64>,
    route_bind_relay_timeout_ms: Option<u64>,
) -> (r: Result<ConfiguredModule, String>)
    ensures
        ({
            let inherited = InheritedView {
                log: log_view(*daemon_log),
                drain_timeout_ms,
                route_bind_relay_timeout_ms,
            };
            let meaning = module_of(*raw, defaults.logging, defaults.health@, inherited);
            match r {
                Ok(m) => meaning == Ok::<_, Seq<char>>(m@),
                Err(text) => meaning == Err::<ModuleView, _>(text@),
            }
        }),
{
    let id: &str = raw.module_id.as_str();
    let health: HealthConfig = match &raw.health {
        Some(health) => match parse_health_config(health, &defaults.health, id) {
            Ok(health) => health,
            Err(text) => return Err(text),
        },
        None => defaults.health,
    };
    if let Some(reason) = &raw.path_hazard {
        return Err(
            String::from_str("module id '").concat(escape_debug(id).as_str()).concat(
                "' is not usable as a path component (",
            ).concat(reason.as_str()).concat(
                "): the daemon derives each module's store path from its id",
            ),
        );
    }
    if let Some(budget) = raw.route_bind_relay_timeout_ms {
        if budget == 0 {
            return Err(
                String::from_str("module '").concat(escape_debug(id).as_str()).concat("' ").concat(
                    ROUTE_BIND_RELAY_ZERO_MESSAGE,
                ),
            );
        }
    }
    let protocol: ModuleProtocol = match parse_module_protocol(&raw.protocol, id) {
        Ok(protocol) => protocol,
        Err(text) => return Err(text),
    };
    if protocol == ModuleProtocol::NoProtocol && raw.reserved {
        return Err(
            String::from_str("module '").concat(escape_debug(id).as_str()).concat(
                "' sets reserved: true with protocol: \"none\"; reserved is enforced on the module's HELLO and a protocol: \"none\" module never registers, so the reservation could never be checked",
            ),
        );
    }
    let restart = match parse_restart_config(&raw.restart, id) {
        Ok(restart) => restart,
        Err(text) => return Err(text),
    };
    let log: Option<LoggingConfig> = match &raw.log {
        Some(log) => {
            let owner: String = String::from_str("module '").concat(id).concat("' log");
            match parse_logging_config(log, &defaults.logging, owner.as_str()) {
                Ok(log) => Some(log),
                Err(text) => return Err(text),
            }
        },
        None => match daemon_log {
            Some(log) => Some(log.copy()),
            None => None,
        },
    };
    let drain_timeout_ms: Option<u64> = match raw.drain_timeout_ms {
        Some(ms) => Some(ms),
        None => drain_timeout_ms,
    };
    let route_bind_relay_timeout_ms: Option<u64> = match raw.route_bind_relay_timeout_ms {
        Some(ms) => Some(ms),
        None => route_bind_relay_timeout_ms,
    };
    Ok(
        ConfiguredModule {
            module_id: raw.module_id.clone(),
            program: raw.program.clone(),
            args: copy_texts(&raw.args),
            env: in_key_order(copy_pairs(&raw.env)),
            log,
            enabled: raw.enabled,
            reserved: raw.reserved,
            reserved_prefixes: copy_texts(&raw.reserved_prefixes),
            protocol,
            health,
            drain_timeout_ms,
            route_bind_relay_timeout_ms,
            restart,
        },
    )
}

proof fn a_wrong_module_ends_it(
    raw: Seq<RawModuleConfig>,
    logging: LoggingDefaults,
    health: HealthView,
    inherited: InheritedView,
    i: int,
)
    requires
        0 <= i <= raw.len(),
        modules_of(raw.take(i), logging, health, inherited) is Err,
    ensures
        modules_of(raw, logging, health, inherited) == modules_of(
            raw.take(i),
            logging,
            health,
            inherited,
        ),
    decreases raw.len(),
{
    if i == raw.len() {
        assert(raw.take(i) =~= raw);
    } else {
        assert(raw.drop_last().take(i) =~= raw.take(i));
        a_wrong_module_ends_it(raw.drop_last(), logging, health, inherited, i);
    }
}

fn parse_modules(
    raw: &Vec<RawModuleConfig>,
    defaults: &ConfigDefaults,
    daemon_log: &Option<LoggingConfig>,
    drain_timeout_ms: Option<u64>,
    route_bind_relay_timeout_ms: Option<u64>,
) -> (r: Result<Vec<ConfiguredModule>, String>)
    ensures
        ({
            let inherited = InheritedView {
                log: log_view(*daemon_log),
                drain_timeout_ms,
                route_bind_relay_timeout_ms,
            };
            let meaning = modules_of(raw@, defaults.logging, defaults.health@, inherited);
            match r {
                Ok(modules) => meaning == Ok::<_, Seq<char>>(module_views(modules@)),
                Err(text) => meaning == Err::<Seq<ModuleView>, _>(text@),
            }
        }),
{
    let ghost inherited = InheritedView {
        log: log_view(*daemon_log),
        drain_timeout_ms,
        route_bind_relay_timeout_ms,
    };
    let ghost logging = defaults.logging;
    let ghost health = defaults.health@;
    let mut modules: Vec<ConfiguredModule> = Vec::new();
    let mut i: usize = 0;
    proof {
        assert(module_views(modules@) =~= Seq::empty());
    }
    while i < raw.len()
        invariant
            i <= raw.len(),
            inherited == (InheritedView {
                log: log_view(*daemon_log),
                drain_timeout_ms,
                route_bind_relay_timeout_ms,
            }),
            logging == defaults.logging,
            health == defaults.health@,
            modules_of(raw@.take(i as int), logging, health, inherited) == Ok::<_, Seq<char>>(
                module_views(modules@),
            ),
        decreases raw.len() - i,
    {
        let ghost was = modules@;
        proof {
            assert(raw@.take(i + 1).drop_last() =~= raw@.take(i as int));
            assert(raw@.take(i + 1).last() == raw@[i as int]);
        }
        match parse_module(
            &raw[i],
            defaults,
            daemon_log,
            drain_timeout_ms,
            route_bind_relay_timeout_ms,
        ) {
            Ok(m) => {
                modules.push(m);
                proof {
                    assert(module_views(modules@) =~= module_views(was).push(m@));
                }
            },
            Err(text) => {
                proof {
                    a_wrong_module_ends_it(raw@, logging, health, inherited, i + 1);
                }
                return Err(text);
            },
        }
        i += 1;
    }
    proof {
        assert(raw@.take(i as int) =~= raw@);
    }
    Ok(modules)
}

/// The daemon's own logging policy.
pub open spec fn daemon_log_of(raw: RawDaemonConfig, defaults: LoggingDefaults) -> Result<
    Option<LoggingView>,
    Seq<char>,
> {
    match raw.log {
        Some(log) => match logging_of(log, defaults, "daemon log"@) {
            Ok(log) => Ok(Some(log)),
            Err(text) => Err(text),
        },
        None => Ok(None),
    }
}

fn parse_daemon_log(raw: &RawDaemonConfig, defaults: &LoggingDefaults) -> (r: Result<
    Option<LoggingConfig>,
    String,
>)
    ensures
        match r {
            Ok(log) => daemon_log_of(*raw, *defaults) == Ok::<_, Seq<char>>(log_view(log)),
            Err(text) => daemon_log_of(*raw, *defaults) == Err::<Option<LoggingView>, _>(text@),
        },
{
    match &raw.log {
        Some(log) => match parse_logging_config(log, defaults, "daemon log") {
            Ok(log) => Ok(Some(log)),
            Err(text) => Err(text),
        },
        None => Ok(None),
    }
}

/// The data home of the storage section: that of the environment where it names
/// none, and never one that is relative to where a module happens to run.
pub open spec fn data_home_of(
    raw: Option<RawStorageConfig>,
    windows: bool,
    default: Seq<char>,
) -> Result<Option<Seq<char>>, Seq<char>> {
    match raw {
        None => Ok(None),
        Some(RawStorageConfig::Sqlite { data_home }) => {
            let home = match data_home {
                Some(home) => home@,
                None => default,
            };
            if absolute(windows, home) {
                Ok(Some(home))
            } else {
                Err(
                    "storage data home resolved to the relative path "@ + home
                        + " (no absolute XDG_DATA_HOME, APPDATA, USERPROFILE, or HOME in the daemon's environment); refusing to serve a cwd-relative storage descriptor to modules. Set XDG_DATA_HOME or HOME to an absolute path, or set storage.data_home in this file."@,
                )
            }
        },
    }
}

fn parse_storage(raw: &Option<RawStorageConfig>, windows: bool, default: &str) -> (r: Result<
    Option<StorageConfig>,
    String,
>)
    ensures
        match r {
            Ok(storage) => data_home_of(*raw, windows, default@) == Ok::<_, Seq<char>>(
                storage_home(storage),
            ),
            Err(text) => data_home_of(*raw, windows, default@) == Err::<Option<Seq<char>>, _>(text@),
        },
{
    match raw {
        None => Ok(None),
        Some(RawStorageConfig::Sqlite { data_home }) => {
            let home: String = match data_home {
                Some(home) => home.clone(),
                None => String::from_str(default),
            };
            if is_absolute(windows, home.as_str()) {
                Ok(Some(StorageConfig::Sqlite { data_home: home }))
            } else {
                Err(
                    String::from_str("storage data home resolved to the relative path ").concat(
                        home.as_str(),
                    ).concat(
                        " (no absolute XDG_DATA_HOME, APPDATA, USERPROFILE, or HOME in the daemon's environment); refusing to serve a cwd-relative storage descriptor to modules. Set XDG_DATA_HOME or HOME to an absolute path, or set storage.data_home in this file.",
                    ),
                )
            }
        },
    }
}

/// The bindings over characters, without what is known of their names.
pub open spec fn bindings_of(raw: Seq<RawReservedCapability>) -> Seq<(Seq<char>, Seq<char>)> {
    raw.map_values(|b: RawReservedCapability| (b.capability@, b.module_id@))
}

fn copy_bindings(raw: &Vec<RawReservedCapability>) -> (r: Vec<(String, String)>)
    ensures
        pairs(r@) == bindings_of(raw@),
{
    let mut r: Vec<(String, String)> = Vec::new();
    let mut i: usize = 0;
    while i < raw.len()
        invariant
            i <= raw.len(),
            pairs(r@) == bindings_of(raw@.take(i as int)),
        decreases raw.len() - i,
    {
        let ghost was = r@;
        r.push((raw[i].capability.clone(), raw[i].module_id.clone()));
        proof {
            let b = (raw@[i as int].capability@, raw@[i as int].module_id@);
            assert(pairs(r@) =~= pairs(was).push(b));
            assert(bindings_of(raw@.take(i + 1)) =~= bindings_of(raw@.take(i as int)).push(b));
        }
        i += 1;
    }
    proof {
        assert(raw@.take(i as int) =~= raw@);
    }
    r
}

/// What a file of the supported version means, or the first thing that is wrong
/// with it: the daemon's own values, the modules one by one, then what must hold
/// between them, and last the storage.
pub open spec fn values_of(
    raw: RawDaemonConfig,
    logging: LoggingDefaults,
    health: HealthView,
    windows: bool,
    data_home: Seq<char>,
    path: Seq<char>,
) -> Result<ConfigView, Seq<char>> {
    match daemon_log_of(raw, logging) {
        Err(text) => Err(text),
        Ok(log) => if raw.route_bind_relay_timeout_ms == Some(0u64) {
            Err(ROUTE_BIND_RELAY_ZERO_MESSAGE@)
        } else {
            let inherited = InheritedView {
                log,
                drain_timeout_ms: raw.drain_timeout_ms,
                route_bind_relay_timeout_ms: raw.route_bind_relay_timeout_ms,
            };
            let carrier = text_option(raw.admission_facts_carrier_module_id);
            let targets = text_list(raw.admission_facts_targets);
            match modules_of(by_key(raw.modules@), logging, health, inherited) {
                Err(text) => Err(text),
                Ok(modules) => if let Some(text) = prefixes_problem(modules) {
                    Err(text)
                } else if let Some(text) = first_problem(
                    by_key(raw.reserved_capabilities@),
                    binding_rule(),
                ) {
                    Err(text)
                } else if let Some(text) = admission_facts_problem(modules, carrier, targets) {
                    Err(text)
                } else {
                    match data_home_of(raw.storage, windows, data_home) {
                        Err(text) => Err(text),
                        Ok(home) => Ok(
                            ConfigView {
                                path,
                                port: raw.port,
                                drain_timeout_ms: raw.drain_timeout_ms,
                                route_bind_relay_timeout_ms: raw.route_bind_relay_timeout_ms,
                                modules,
                                data_home: home,
                                admission_facts_carrier_module_id: carrier,
                                admission_facts_targets: targets,
                                reserved_capabilities: bindings_of(
                                    by_key(raw.reserved_capabilities@),
                                ),
                            },
                        ),
                    }
                },
            }
        },
    }
}

/// What a file means, or why it means nothing.
pub open spec fn config_of(raw: RawDaemonConfig, defaults: ConfigDefaults, path: Seq<char>) -> Result<
    ConfigView,
    ConfigErrorView,
> {
    if raw.version != SUPPORTED_CONFIG_VERSION {
        Err(ConfigErrorView::UnsupportedVersion { path, version: raw.version })
    } else {
        match values_of(
            raw,
            defaults.logging,
            defaults.health@,
            defaults.windows,
            defaults.data_home@,
            path,
        ) {
            Ok(config) => Ok(config),
            Err(message) => Err(ConfigErrorView::InvalidValue { path, message }),
        }
    }
}

fn invalid(path: &str, message: String) -> (r: DaemonConfigError)
    ensures
        r@ == (ConfigErrorView::InvalidValue { path: path@, message: message@ }),
{
    DaemonConfigError::InvalidValue { path: String::from_str(path), message }
}

/// Reads a file.
pub fn parse_doc(raw: RawDaemonConfig, defaults: &ConfigDefaults, path: &str) -> (r: Result<
    DaemonConfig,
    DaemonConfigError,
>)
    ensures
        match r {
            Ok(config) => config_of(raw, *defaults, path@) == Ok::<_, ConfigErrorView>(config@),
            Err(e) => config_of(raw, *defaults, path@) == Err::<ConfigView, _>(e@),
        },
{
    if raw.version != SUPPORTED_CONFIG_VERSION {
        return Err(
            DaemonConfigError::UnsupportedVersion {
                path: String::from_str(path),
                version: raw.version,
            },
        );
    }
    let log: Option<LoggingConfig> = match parse_daemon_log(&raw, &defaults.logging) {
        Ok(log) => log,
        Err(text) => return Err(invalid(path, text)),
    };
    if let Some(budget) = raw.route_bind_relay_timeout_ms {
        if budget == 0 {
            return Err(invalid(path, String::from_str(ROUTE_BIND_RELAY_ZERO_MESSAGE)));
        }
    }
    let named: Vec<RawModuleConfig> = in_key_order(raw.modules);
    let bindings: Vec<RawReservedCapability> = in_key_order(raw.reserved_capabilities);
    let modules: Vec<ConfiguredModule> = match parse_modules(
        &named,
        defaults,
        &log,
        raw.drain_timeout_ms,
        raw.route_bind_relay_timeout_ms,
    ) {
        Ok(modules) => modules,
        Err(text) => return Err(invalid(path, text)),
    };
    if let Some(text) = validate_reserved_prefixes(&modules) {
        return Err(invalid(path, text));
    }
    if let Some(text) = validate_reserved_capabilities(&bindings) {
        return Err(invalid(path, text));
    }
    let carrier: Option<&str> = match &raw.admission_facts_carrier_module_id {
        Some(id) => Some(id.as_str()),
        None => None,
    };
    if let Some(text) = validate_admission_facts_config(
        &modules,
        carrier,
        &raw.admission_facts_targets,
    ) {
        return Err(invalid(path, text));
    }
    let storage: Option<StorageConfig> = match parse_storage(
        &raw.storage,
        defaults.windows,
        defaults.data_home.as_str(),
    ) {
        Ok(storage) => storage,
        Err(text) => return Err(invalid(path, text)),
    };
    Ok(
        DaemonConfig {
            path: String::from_str(path),
            port: raw.port,
            drain_timeout_ms: raw.drain_timeout_ms,
            route_bind_relay_timeout_ms: raw.route_bind_relay_timeout_ms,
            modules,
            storage,
            admission_facts_carrier_module_id: raw.admission_facts_carrier_module_id,
            admission_facts_targets: raw.admission_facts_targets,
            reserved_capabilities: copy_bindings(&bindings),
        },
    )
}

/// What became of the attempt to read the file.
#[derive(Debug)]
pub enum ConfigDocument {
    /// There is no file.
    Absent,
    Unreadable(String),
    NotJsonc(String),
    NotJson(String),
    Parsed(RawDaemonConfig),
}

/// Why a file that is there cannot be read at all.
pub open spec fn document_error(document: ConfigDocument, path: Seq<char>) -> Option<
    ConfigErrorView,
> {
    match document {
        ConfigDocument::Unreadable(source) => Some(
            ConfigErrorView::Read { path, source: source@ },
        ),
        ConfigDocument::NotJsonc(message) => Some(
            ConfigErrorView::InvalidJsonc { path, message: message@ },
        ),
        ConfigDocument::NotJson(source) => Some(
            ConfigErrorView::InvalidJson { path, source: source@ },
        ),
        _ => None,
    }
}

/// Reads the configuration. Without a file there is none, and that is no error.
pub fn load(path: &str, document: ConfigDocument, defaults: &ConfigDefaults) -> (r: Result<
    Option<DaemonConfig>,
    DaemonConfigError,
>)
    ensures
        match r {
            Ok(None) => document is Absent,
            Ok(Some(config)) => document matches ConfigDocument::Parsed(raw) && config_of(
                raw,
                *defaults,
                path@,
            ) == Ok::<_, ConfigErrorView>(config@),
            Err(e) => document_error(document, path@) == Some(e@) || (document matches
                ConfigDocument::Parsed(raw) && config_of(raw, *defaults, path@) == Err::<
                ConfigView,
                _,
            >(e@)),
        },
{
    match document {
        ConfigDocument::Absent => Ok(None),
        ConfigDocument::Unreadable(source) => Err(
            DaemonConfigError::Read { path: String::from_str(path), source },
        ),
        ConfigDocument::NotJsonc(message) => Err(
            DaemonConfigError::InvalidJsonc { path: String::from_str(path), message },
        ),
        ConfigDocument::NotJson(source) => Err(
            DaemonConfigError::InvalidJson { path: String::from_str(path), source },
        ),
        ConfigDocument::Parsed(raw) => match parse_doc(raw, defaults, path) {
            Ok(config) => Ok(Some(config)),
            Err(e) => Err(e),
        },
    }
}

/// The daemon's own logging policy, or why there is none.
pub open spec fn logging_config_of(
    raw: RawDaemonConfig,
    defaults: LoggingDefaults,
    path: Seq<char>,
) -> Result<Option<LoggingView>, ConfigErrorView> {
    if raw.version != SUPPORTED_CONFIG_VERSION {
        Err(ConfigErrorView::UnsupportedVersion { path, version: raw.version })
    } else {
        match daemon_log_of(raw, defaults) {
            Ok(log) => Ok(log),
            Err(message) => Err(ConfigErrorView::InvalidValue { path, message }),
        }
    }
}

/// Reads the daemon's own logging policy alone, whatever else is wrong with the
/// file.
pub fn load_logging(path: &str, document: ConfigDocument, defaults: &LoggingDefaults) -> (r: Result<
    Option<LoggingConfig>,
    DaemonConfigError,
>)
    ensures
        match r {
            Ok(log) => (document is Absent && log is None) || (document matches
                ConfigDocument::Parsed(raw) && logging_config_of(raw, *defaults, path@) == Ok::<
                _,
                ConfigErrorView,
            >(log_view(log))),
            Err(e) => document_error(document, path@) == Some(e@) || (document matches
                ConfigDocument::Parsed(raw) && logging_config_of(raw, *defaults, path@) == Err::<
                Option<LoggingView>,
                _,
            >(e@)),
        },
{
    match document {
        ConfigDocument::Absent => Ok(None),
        ConfigDocument::Unreadable(source) => Err(
            DaemonConfigError::Read { path: String::from_str(path), source },
        ),
        ConfigDocument::NotJsonc(message) => Err(
            DaemonConfigError::InvalidJsonc { path: String::from_str(path), message },
        ),
        ConfigDocument::NotJson(source) => Err(
            DaemonConfigError::InvalidJson { path: String::from_str(path), source },
        ),
        ConfigDocument::Parsed(raw) => {
            if raw.version != SUPPORTED_CONFIG_VERSION {
                return Err(
                    DaemonConfigError::UnsupportedVersion {
                        path: String::from_str(path),
                        version: raw.version,
                    },
                );
            }
            match parse_daemon_log(&raw, defaults) {
                Ok(log) => Ok(log),
                Err(text) => Err(invalid(path, text)),
            }
        },
    }
}

/// The two declare one protocol: an absent one means `subc`.
pub open spec fn one_protocol(a: Option<String>, b: Option<String>) -> bool {
    ||| text_option(a) == text_option(b)
    ||| (a is None && text_option(b) == Some("subc"@))
    ||| (b is None && text_option(a) == Some("subc"@))
}

/// The two modules differ at most in that one declares `subc` and the other nothing.
pub open spec fn differ_in_silence(a: RawModuleConfig, b: RawModuleConfig) -> bool {
    a == (RawModuleConfig { protocol: a.protocol, ..b }) && one_protocol(a.protocol, b.protocol)
}

/// The modules of the one list differ from those of the other at most so.
pub open spec fn lists_differ_in_silence(
    a: Seq<RawModuleConfig>,
    b: Seq<RawModuleConfig>,
) -> bool {
    a.len() == b.len() && forall|i: int|
        0 <= i < a.len() ==> differ_in_silence(#[trigger] a[i], b[i])
}

proof fn silence_makes_no_other_place(
    a: Seq<RawModuleConfig>,
    b: Seq<RawModuleConfig>,
    x: RawModuleConfig,
    y: RawModuleConfig,
)
    requires
        lists_differ_in_silence(a, b),
        differ_in_silence(x, y),
    ensures
        lists_differ_in_silence(with_entry(a, x), with_entry(b, y)),
    decreases a.len(),
{
    if a.len() > 0 {
        assert(differ_in_silence(a[a.len() - 1], b[b.len() - 1]));
        assert forall|i: int| 0 <= i < a.drop_last().len() implies differ_in_silence(
            #[trigger] a.drop_last()[i],
            b.drop_last()[i],
        ) by {
            assert(differ_in_silence(a[i], b[i]));
        }
        silence_makes_no_other_place(a.drop_last(), b.drop_last(), x, y);
    }
}

proof fn silence_makes_no_other_order(a: Seq<RawModuleConfig>, b: Seq<RawModuleConfig>)
    requires
        lists_differ_in_silence(a, b),
    ensures
        lists_differ_in_silence(by_key(a), by_key(b)),
    decreases a.len(),
{
    if a.len() > 0 {
        assert(differ_in_silence(a[a.len() - 1], b[b.len() - 1]));
        assert forall|i: int| 0 <= i < a.drop_last().len() implies differ_in_silence(
            #[trigger] a.drop_last()[i],
            b.drop_last()[i],
        ) by {
            assert(differ_in_silence(a[i], b[i]));
        }
        silence_makes_no_other_order(a.drop_last(), b.drop_last());
        silence_makes_no_other_place(
            by_key(a.drop_last()),
            by_key(b.drop_last()),
            a.last(),
            b.last(),
        );
    }
}

proof fn silence_makes_no_other_modules(
    a: Seq<RawModuleConfig>,
    b: Seq<RawModuleConfig>,
    logging: LoggingDefaults,
    health: HealthView,
    inherited: InheritedView,
)
    requires
        lists_differ_in_silence(a, b),
    ensures
        modules_of(a, logging, health, inherited) == modules_of(b, logging, health, inherited),
    decreases a.len(),
{
    if a.len() > 0 {
        assert(differ_in_silence(a[a.len() - 1], b[b.len() - 1]));
        assert forall|i: int| 0 <= i < a.drop_last().len() implies differ_in_silence(
            #[trigger] a.drop_last()[i],
            b.drop_last()[i],
        ) by {
            assert(differ_in_silence(a[i], b[i]));
        }
        silence_makes_no_other_modules(a.drop_last(), b.drop_last(), logging, health, inherited);
        assert(module_of(a.last(), logging, health, inherited) == module_of(
            b.last(),
            logging,
            health,
            inherited,
        ));
    }
}

/// Two files of which one declares `subc` where the other declares no protocol mean
/// the same, or are refused for the same reason.
pub proof fn an_absent_protocol_means_subc(
    a: RawDaemonConfig,
    b: RawDaemonConfig,
    defaults: ConfigDefaults,
    path: Seq<char>,
)
    requires
        a == (RawDaemonConfig { modules: a.modules, ..b }),
        lists_differ_in_silence(a.modules@, b.modules@),
    ensures
        config_of(a, defaults, path) == config_of(b, defaults, path),
{
    silence_makes_no_other_order(a.modules@, b.modules@);
    if let Ok(log) = daemon_log_of(a, defaults.logging) {
        silence_makes_no_other_modules(
            by_key(a.modules@),
            by_key(b.modules@),
            defaults.logging,
            defaults.health@,
            inherited_of(a, log),
        );
    }
}

/// The daemon's values that the modules of a file take over.
pub open spec fn inherited_of(raw: RawDaemonConfig, log: Option<LoggingView>) -> InheritedView {
    InheritedView {
        log,
        drain_timeout_ms: raw.drain_timeout_ms,
        route_bind_relay_timeout_ms: raw.route_bind_relay_timeout_ms,
    }
}

proof fn modules_stand_in_order(
    raw: Seq<RawModuleConfig>,
    logging: LoggingDefaults,
    health: HealthView,
    inherited: InheritedView,
)
    ensures
        modules_of(raw, logging, health, inherited) matches Ok(modules) ==> {
            &&& modules.len() == raw.len()
            &&& forall|i: int|
                0 <= i < raw.len() ==> module_of(#[trigger] raw[i], logging, health, inherited)
                    == Ok::<_, Seq<char>>(modules[i])
        },
    decreases raw.len(),
{
    if raw.len() > 0 {
        modules_stand_in_order(raw.drop_last(), logging, health, inherited);
        if let Ok(modules) = modules_of(raw, logging, health, inherited) {
            assert forall|i: int| 0 <= i < raw.len() implies module_of(
                #[trigger] raw[i],
                logging,
                health,
                inherited,
            ) == Ok::<_, Seq<char>>(modules[i]) by {
                if i < raw.len() - 1 {
                    assert(raw.drop_last()[i] == raw[i]);
                }
            }
        }
    }
}

/// An accepted file holds the modules that it names, in the order of their ids, and
/// each means the same whatever stands beside it.
pub proof fn each_module_stands_for_itself(
    raw: RawDaemonConfig,
    defaults: ConfigDefaults,
    path: Seq<char>,
    i: int,
)
    requires
        config_of(raw, defaults, path) is Ok,
        0 <= i < by_key(raw.modules@).len(),
    ensures
        ({
            let config = config_of(raw, defaults, path)->Ok_0;
            let log = daemon_log_of(raw, defaults.logging);
            &&& log is Ok
            &&& config.modules.len() == by_key(raw.modules@).len()
            &&& config.modules[i].module_id == by_key(raw.modules@)[i].module_id@
            &&& module_of(
                by_key(raw.modules@)[i],
                defaults.logging,
                defaults.health@,
                inherited_of(raw, log->Ok_0),
            ) == Ok::<_, Seq<char>>(config.modules[i])
        }),
{
    let inherited = inherited_of(raw, daemon_log_of(raw, defaults.logging)->Ok_0);
    modules_stand_in_order(by_key(raw.modules@), defaults.logging, defaults.health@, inherited);
    assert(module_of(by_key(raw.modules@)[i], defaults.logging, defaults.health@, inherited) is Ok);
}

/// In an accepted file a module's own drain budget wins over the daemon's, zero
/// included, and so does its bind budget, which is never zero.
pub proof fn a_modules_own_budget_wins(
    raw: RawDaemonConfig,
    defaults: ConfigDefaults,
    path: Seq<char>,
    i: int,
)
    requires
        config_of(raw, defaults, path) is Ok,
        0 <= i < by_key(raw.modules@).len(),
    ensures
        ({
            let m = config_of(raw, defaults, path)->Ok_0.modules[i];
            &&& m.drain_timeout_ms == own_or(by_key(raw.modules@)[i].drain_timeout_ms, raw.drain_timeout_ms)
            &&& m.route_bind_relay_timeout_ms == own_or(
                by_key(raw.modules@)[i].route_bind_relay_timeout_ms,
                raw.route_bind_relay_timeout_ms,
            )
            &&& m.route_bind_relay_timeout_ms != Some(0u64)
        }),
{
    each_module_stands_for_itself(raw, defaults, path, i);
}

/// A module of an accepted file whose id is reserved can register, so that the
/// reservation can be checked.
pub proof fn a_reserved_module_registers(
    raw: RawDaemonConfig,
    defaults: ConfigDefaults,
    path: Seq<char>,
    i: int,
)
    requires
        config_of(raw, defaults, path) is Ok,
        0 <= i < by_key(raw.modules@).len(),
    ensures
        ({
            let m = config_of(raw, defaults, path)->Ok_0.modules[i];
            m.reserved ==> m.protocol == ModuleProtocol::Subc
        }),
{
    each_module_stands_for_itself(raw, defaults, path, i);
}

/// The data home of an accepted file is absolute, so that every module finds its
/// store in one place.
pub proof fn an_accepted_data_home_is_absolute(
    raw: RawDaemonConfig,
    defaults: ConfigDefaults,
    path: Seq<char>,
)
    ensures
        config_of(raw, defaults, path) matches Ok(config) ==> (config.data_home matches Some(
            home,
        ) ==> absolute(defaults.windows, home)),
{
}

/// One wrong module refuses the whole file.
pub proof fn a_wrong_module_refuses_the_file(
    raw: RawDaemonConfig,
    defaults: ConfigDefaults,
    path: Seq<char>,
    i: int,
)
    requires
        0 <= i < by_key(raw.modules@).len(),
        daemon_log_of(raw, defaults.logging) matches Ok(log) && module_of(
            by_key(raw.modules@)[i],
            defaults.logging,
            defaults.health@,
            inherited_of(raw, log),
        ) is Err,
    ensures
        config_of(raw, defaults, path) is Err,
{
    if config_of(raw, defaults, path) is Ok {
        each_module_stands_for_itself(raw, defaults, path, i);
    }
}

/// The early reading of the daemon's logging policy gives what the modules of the
/// accepted file inherit.
pub proof fn the_early_logging_policy_is_the_inherited_one(
    raw: RawDaemonConfig,
    defaults: ConfigDefaults,
    path: Seq<char>,
    i: int,
)
    requires
        config_of(raw, defaults, path) is Ok,
        0 <= i < by_key(raw.modules@).len(),
        by_key(raw.modules@)[i].log is None,
    ensures
        logging_config_of(raw, defaults.logging, path) == Ok::<_, ConfigErrorView>(
            config_of(raw, defaults, path)->Ok_0.modules[i].log,
        ),
{
    each_module_stands_for_itself(raw, defaults, path, i);
}

/// The ids of the modules, in their order.
pub open spec fn module_ids(modules: Seq<ModuleView>) -> Seq<Seq<char>> {
    modules.map_values(|m: ModuleView| m.module_id)
}

/// A module can be bound to, checked where its id is reserved, and restarted.
pub open spec fn sound_module(m: ModuleView) -> bool {
    &&& m.route_bind_relay_timeout_ms != Some(0u64)
    &&& m.reserved ==> m.protocol == ModuleProtocol::Subc
    &&& m.restart.window > 0
    &&& m.restart.backoff <= m.restart.max_backoff
}

/// The carrier is a module that runs and whose id only the process that the daemon
/// started may take.
pub open spec fn sound_carrier(modules: Seq<ModuleView>, carrier: Seq<char>) -> bool {
    exists|i: int|
        0 <= i < modules.len() && (#[trigger] modules[i]).module_id == carrier && modules[i].enabled
            && modules[i].reserved
}

/// What an accepted file means keeps the place of the file and holds the modules that
/// it names, their ids strictly ascending; each of the modules is sound, no bind budget
/// is zero, the data home is absolute, and a carrier of admission facts is a reserved
/// module that runs.
pub proof fn what_an_accepted_file_holds(
    raw: RawDaemonConfig,
    defaults: ConfigDefaults,
    path: Seq<char>,
)
    ensures
        config_of(raw, defaults, path) matches Ok(config) ==> {
            &&& config.path == path
            &&& module_ids(config.modules) == keys_of(by_key(raw.modules@))
            &&& ascending(module_ids(config.modules))
            &&& forall|i: int|
                0 <= i < config.modules.len() ==> sound_module(#[trigger] config.modules[i])
            &&& config.route_bind_relay_timeout_ms != Some(0u64)
            &&& config.data_home matches Some(home) ==> absolute(defaults.windows, home)
            &&& config.admission_facts_carrier_module_id matches Some(carrier) ==> sound_carrier(
                config.modules,
                carrier,
            )
        },
{
    if let Ok(config) = config_of(raw, defaults, path) {
        let inherited = inherited_of(raw, daemon_log_of(raw, defaults.logging)->Ok_0);
        modules_stand_in_order(by_key(raw.modules@), defaults.logging, defaults.health@, inherited);
        assert forall|i: int| 0 <= i < config.modules.len() implies sound_module(
            #[trigger] config.modules[i],
        ) && config.modules[i].module_id == by_key(raw.modules@)[i].module_id@ by {
            each_module_stands_for_itself(raw, defaults, path, i);
            what_a_restart_block_holds(by_key(raw.modules@)[i].restart, by_key(raw.modules@)[i].module_id@);
        }
        assert(module_ids(config.modules) =~= keys_of(by_key(raw.modules@)));
        by_key_holds_the_latest_in_order(raw.modules@);
        if let Some(carrier) = config.admission_facts_carrier_module_id {
            an_accepted_carrier_is_a_reserved_module(
                config.modules,
                carrier,
                config.admission_facts_targets,
            );
        }
    }
}

} // verus!
