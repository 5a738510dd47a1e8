//! What the daemon is started with.
use crate::bootstrap::error::BootstrapError;
use crate::bootstrap::{
    connection_file, connection_file_path_with_source, CgroupPlacementConfig, ConnectionFileSource,
    DEFAULT_SUBC_PORT,
};
use crate::daemon_config::document::{DaemonConfig, DaemonConfigError};
use crate::daemon_config::module::ConfiguredModule;
use crate::daemon_config::StorageConfig;
use crate::paths::{join_name, join_names, joined_name, joined_names, DaemonRunDirError};
use crate::text::{
    a_text_without_white_space_at_its_ends_is_kept, before, before_irreflexive, before_total,
    before_transitive, decimal, digit, precedes,
    trim, trimmed,
};
use vstd::prelude::*;

verus! {

/// What the daemon is started with. An absent path means that the thing it stands
/// for is not done, never that it is done in the user's own directories. `W` is
/// how the daemon watches itself.
#[derive(Debug)]
pub struct BootstrapConfig<W> {
    pub connection_file_path: String,
    pub port: u16,
    pub daemon_ver: String,
    /// In the order of their ids.
    pub configured_modules: Vec<ConfiguredModule>,
    pub storage_config: Option<StorageConfig>,
    pub admission_facts_carrier_module_id: Option<String>,
    pub admission_facts_targets: Option<Vec<String>>,
    pub daemon_config_path: Option<String>,
    pub configured_port: Option<u16>,
    /// How long a bind may take where a module does not say, in milliseconds.
    pub route_bind_relay_default_ms: Option<u64>,
    pub reserved_capabilities: Vec<(String, String)>,
    /// Absent means the built-in way.
    pub watchdog_config: Option<W>,
    pub connection_file_source: ConnectionFileSource,
    pub cgroup_placement: CgroupPlacementConfig,
    /// Where the error output of modules is captured.
    pub capture_logs_dir: Option<String>,
    /// Where the ends of modules are noted.
    pub terminal_journal_path: Option<String>,
    /// Where the machine's id is kept.
    pub machine_id_path: Option<String>,
    /// Where the running modules are noted for a daemon that comes after a crash.
    pub live_children_path: Option<String>,
}

/// The modules of the id, in their order.
pub open spec fn of_id(modules: Seq<ConfiguredModule>, id: Seq<char>) -> Seq<ConfiguredModule>
    decreases modules.len(),
{
    if modules.len() == 0 {
        Seq::empty()
    } else if modules.last().module_id@ == id {
        of_id(modules.drop_last(), id).push(modules.last())
    } else {
        of_id(modules.drop_last(), id)
    }
}

/// No module stands behind one of a later id.
pub open spec fn by_id(modules: Seq<ConfiguredModule>) -> bool {
    forall|i: int, j: int|
        0 <= i < j < modules.len() ==> !before(
            (#[trigger] modules[j]).module_id@,
            (#[trigger] modules[i]).module_id@,
        )
}

/// The modules in the order of their ids, those of one id in the order in which
/// they were.
pub open spec fn sorted_from(sorted: Seq<ConfiguredModule>, modules: Seq<ConfiguredModule>) -> bool {
    by_id(sorted) && forall|id: Seq<char>| #[trigger] of_id(sorted, id) == of_id(modules, id)
}

proof fn of_id_of_both(a: Seq<ConfiguredModule>, b: Seq<ConfiguredModule>, id: Seq<char>)
    ensures
        of_id(a + b, id) == of_id(a, id) + of_id(b, id),
    decreases b.len(),
{
    if b.len() == 0 {
        assert(a + b =~= a);
        assert(of_id(a, id) + of_id(b, id) =~= of_id(a, id));
    } else {
        assert((a + b).drop_last() =~= a + b.drop_last());
        of_id_of_both(a, b.drop_last(), id);
        assert(of_id(a + b, id) =~= of_id(a, id) + of_id(b, id));
    }
}

proof fn none_of_id(b: Seq<ConfiguredModule>, id: Seq<char>)
    requires
        forall|i: int| 0 <= i < b.len() ==> (#[trigger] b[i]).module_id@ != id,
    ensures
        of_id(b, id) == Seq::<ConfiguredModule>::empty(),
    decreases b.len(),
{
    if b.len() > 0 {
        assert(b[b.len() - 1].module_id@ != id);
        let rest = b.drop_last();
        assert forall|i: int| 0 <= i < rest.len() implies (#[trigger] rest[i]).module_id@ != id by {
            assert(b[i] == rest[i]);
        }
        none_of_id(rest, id);
    }
}

proof fn inserted_in_order(s: Seq<ConfiguredModule>, p: int, x: ConfiguredModule)
    requires
        by_id(s),
        0 <= p <= s.len(),
        forall|i: int| 0 <= i < p ==> !before(x.module_id@, (#[trigger] s[i]).module_id@),
        p < s.len() ==> before(x.module_id@, s[p].module_id@),
    ensures
        by_id(s.insert(p, x)),
        forall|id: Seq<char>| #[trigger] of_id(s.insert(p, x), id) == of_id(s.push(x), id),
{
    let t = s.insert(p, x);
    let k = x.module_id@;
    assert forall|j: int| p <= j < s.len() implies before(k, (#[trigger] s[j]).module_id@) by {
        if j > p {
            assert(!before(s[j].module_id@, s[p].module_id@));
            before_total(s[p].module_id@, s[j].module_id@);
            if s[p].module_id@ != s[j].module_id@ {
                before_transitive(k, s[p].module_id@, s[j].module_id@);
            }
        }
    }
    assert forall|i: int, j: int| 0 <= i < j < t.len() implies !before(
        (#[trigger] t[j]).module_id@,
        (#[trigger] t[i]).module_id@,
    ) by {
        let a = if i < p { i } else { i - 1 };
        let b = if j < p { j } else { j - 1 };
        if i == p {
            assert(t[j] == s[j - 1]);
            if before(t[j].module_id@, k) {
                before_transitive(k, s[j - 1].module_id@, k);
            }
            before_irreflexive(k);
        } else if j == p {
            assert(t[i] == s[i]);
        } else {
            assert(t[i] == s[a]);
            assert(t[j] == s[b]);
        }
    }
    let head = s.take(p);
    let tail = s.skip(p);
    assert(t =~= head + seq![x] + tail);
    assert(s =~= head + tail);
    assert(s.push(x) =~= head + tail + seq![x]);
    assert forall|id: Seq<char>| #[trigger] of_id(t, id) == of_id(s.push(x), id) by {
        of_id_of_both(head + seq![x], tail, id);
        of_id_of_both(head, seq![x], id);
        of_id_of_both(head + tail, seq![x], id);
        of_id_of_both(head, tail, id);
        if id == k {
            before_irreflexive(k);
            assert forall|i: int| 0 <= i < tail.len() implies (#[trigger] tail[i]).module_id@
                != id by {
                assert(tail[i] == s[p + i]);
            }
            none_of_id(tail, id);
            assert(of_id(t, id) =~= of_id(s.push(x), id));
        } else {
            none_of_id(seq![x], id);
            assert(of_id(t, id) =~= of_id(s.push(x), id));
        }
    }
}

fn sort_by_id(modules: Vec<ConfiguredModule>) -> (r: Vec<ConfiguredModule>)
    ensures
        sorted_from(r@, modules@),
{
    let ghost all = modules@;
    let n: usize = modules.len();
    let mut rest: Vec<ConfiguredModule> = modules;
    let mut r: Vec<ConfiguredModule> = Vec::new();
    let mut i: usize = 0;
    while i < n
        invariant
            i <= n,
            all == modules@,
            n == all.len(),
            rest@ == all.skip(i as int),
            sorted_from(r@, all.take(i as int)),
        decreases n - i,
    {
        let x: ConfiguredModule = rest.remove(0);
        let ghost was = r@;
        proof {
            assert(x == all[i as int]);
            assert(rest@ =~= all.skip(i + 1));
        }
        let mut p: usize = 0;
        while p < r.len() && !precedes(x.module_id.as_str(), r[p].module_id.as_str())
            invariant
                p <= r.len(),
                r@ == was,
                forall|k: int|
                    0 <= k < p ==> !before(x.module_id@, (#[trigger] was[k]).module_id@),
            decreases r.len() - p,
        {
            p += 1;
        }
        proof {
            inserted_in_order(was, p as int, x);
            let now = all.take(i + 1);
            assert(now =~= all.take(i as int).push(x));
            assert forall|id: Seq<char>| #[trigger] of_id(was.insert(p as int, x), id) == of_id(
                now,
                id,
            ) by {
                assert(was.push(x).drop_last() =~= was);
                assert(now.drop_last() =~= all.take(i as int));
                assert(of_id(was, id) == of_id(all.take(i as int), id));
            }
        }
        r.insert(p, x);
        i += 1;
    }
    proof {
        assert(all.take(i as int) =~= all);
    }
    r
}

impl<W> BootstrapConfig<W> {
    /// A daemon at the connection file and the port that leaves the user's own
    /// directories alone.
    pub fn new(connection_file_path: String, port: u16, daemon_ver: String) -> (r: BootstrapConfig<
        W,
    >)
        ensures
            r.connection_file_path == connection_file_path,
            r.port == port,
            r.daemon_ver == daemon_ver,
            r.configured_modules@.len() == 0,
            r.storage_config is None,
            r.admission_facts_carrier_module_id is None,
            r.admission_facts_targets is None,
            r.daemon_config_path is None,
            r.configured_port is None,
            r.route_bind_relay_default_ms is None,
            r.reserved_capabilities@.len() == 0,
            r.watchdog_config is None,
            r.connection_file_source == ConnectionFileSource::Explicit,
            r.cgroup_placement is Disabled,
            r.capture_logs_dir is None,
            r.terminal_journal_path is None,
            r.machine_id_path is None,
            r.live_children_path is None,
    {
        BootstrapConfig {
            connection_file_path,
            port,
            daemon_ver,
            configured_modules: Vec::new(),
            storage_config: None,
            admission_facts_carrier_module_id: None,
            admission_facts_targets: None,
            daemon_config_path: None,
            configured_port: None,
            route_bind_relay_default_ms: None,
            reserved_capabilities: Vec::new(),
            watchdog_config: None,
            connection_file_source: ConnectionFileSource::Explicit,
            cgroup_placement: CgroupPlacementConfig::default(),
            capture_logs_dir: None,
            terminal_journal_path: None,
            machine_id_path: None,
            live_children_path: None,
        }
    }

    /// Notes the running modules at `path`, and ends at the start what a crash
    /// left running.
    pub fn with_live_children_record(self, path: String) -> (r: BootstrapConfig<W>)
        ensures
            r == (BootstrapConfig { live_children_path: Some(path), ..self }),
    {
        let mut config: BootstrapConfig<W> = self;
        config.live_children_path = Some(path);
        config
    }

    /// Keeps the machine's id at `path`.
    pub fn with_machine_id_path(self, path: String) -> (r: BootstrapConfig<W>)
        ensures
            r == (BootstrapConfig { machine_id_path: Some(path), ..self }),
    {
        let mut config: BootstrapConfig<W> = self;
        config.machine_id_path = Some(path);
        config
    }

    /// Chooses where module cgroups are prepared.
    pub fn with_cgroup_placement(self, placement: CgroupPlacementConfig) -> (r: BootstrapConfig<W>)
        ensures
            r == (BootstrapConfig { cgroup_placement: placement, ..self }),
    {
        let mut config: BootstrapConfig<W> = self;
        config.cgroup_placement = placement;
        config
    }

    /// Captures the error output of modules in `dir`.
    pub fn with_capture_logs_dir(self, dir: String) -> (r: BootstrapConfig<W>)
        ensures
            r == (BootstrapConfig { capture_logs_dir: Some(dir), ..self }),
    {
        let mut config: BootstrapConfig<W> = self;
        config.capture_logs_dir = Some(dir);
        config
    }

    /// Notes the ends of modules at `path`.
    pub fn with_terminal_journal_path(self, path: String) -> (r: BootstrapConfig<W>)
        ensures
            r == (BootstrapConfig { terminal_journal_path: Some(path), ..self }),
    {
        let mut config: BootstrapConfig<W> = self;
        config.terminal_journal_path = Some(path);
        config
    }

    /// Sets the modules that the daemon starts, and puts them in the order of their
    /// ids.
    pub fn with_configured_modules(self, modules: Vec<ConfiguredModule>) -> (r: BootstrapConfig<W>)
        ensures
            r == (BootstrapConfig { configured_modules: r.configured_modules, ..self }),
            sorted_from(r.configured_modules@, modules@),
    {
        let mut config: BootstrapConfig<W> = self;
        config.configured_modules = sort_by_id(modules);
        config
    }

    /// Sets the storage policy.
    pub fn with_storage_config(self, storage_config: Option<StorageConfig>) -> (r: BootstrapConfig<
        W,
    >)
        ensures
            r == (BootstrapConfig { storage_config, ..self }),
    {
        let mut config: BootstrapConfig<W> = self;
        config.storage_config = storage_config;
        config
    }

    /// Sets who may carry admission facts, and to whom.
    pub fn with_admission_facts_config(
        self,
        carrier_module_id: Option<String>,
        targets: Option<Vec<String>>,
    ) -> (r: BootstrapConfig<W>)
        ensures
            r == (BootstrapConfig {
                admission_facts_carrier_module_id: carrier_module_id,
                admission_facts_targets: targets,
                ..self
            }),
    {
        let mut config: BootstrapConfig<W> = self;
        config.admission_facts_carrier_module_id = carrier_module_id;
        config.admission_facts_targets = targets;
        config
    }

    /// Sets how long a bind may take where a module does not say.
    pub fn with_route_bind_relay_default_ms(self, ms: Option<u64>) -> (r: BootstrapConfig<W>)
        ensures
            r == (BootstrapConfig { route_bind_relay_default_ms: ms, ..self }),
    {
        let mut config: BootstrapConfig<W> = self;
        config.route_bind_relay_default_ms = ms;
        config
    }

    /// Sets which capabilities are reserved.
    pub fn with_reserved_capabilities(self, reserved_capabilities: Vec<(String, String)>) -> (r:
        BootstrapConfig<W>)
        ensures
            r == (BootstrapConfig { reserved_capabilities, ..self }),
    {
        let mut config: BootstrapConfig<W> = self;
        config.reserved_capabilities = reserved_capabilities;
        config
    }

    /// Sets how the daemon watches itself.
    pub fn with_watchdog_config(self, watchdog_config: W) -> (r: BootstrapConfig<W>)
        ensures
            r == (BootstrapConfig { watchdog_config: Some(watchdog_config), ..self }),
    {
        let mut config: BootstrapConfig<W> = self;
        config.watchdog_config = Some(watchdog_config);
        config
    }

    /// The configuration says what the file says, and nothing of what a file said
    /// before is left.
    pub open spec fn taken_from(
        self,
        base: BootstrapConfig<W>,
        path: Seq<char>,
        file: Option<DaemonConfig>,
    ) -> bool {
        &&& self == (BootstrapConfig {
            configured_modules: self.configured_modules,
            storage_config: self.storage_config,
            admission_facts_carrier_module_id: self.admission_facts_carrier_module_id,
            admission_facts_targets: self.admission_facts_targets,
            route_bind_relay_default_ms: self.route_bind_relay_default_ms,
            reserved_capabilities: self.reserved_capabilities,
            daemon_config_path: self.daemon_config_path,
            configured_port: self.configured_port,
            ..base
        })
        &&& self.daemon_config_path matches Some(p)
        &&& p@ == path
        &&& match file {
            Some(file) => {
                &&& sorted_from(self.configured_modules@, file.modules@)
                &&& self.storage_config == file.storage
                &&& self.admission_facts_carrier_module_id == file.admission_facts_carrier_module_id
                &&& self.admission_facts_targets == file.admission_facts_targets
                &&& self.route_bind_relay_default_ms == file.route_bind_relay_timeout_ms
                &&& self.reserved_capabilities == file.reserved_capabilities
                &&& self.configured_port == file.port
            },
            None => {
                &&& self.configured_modules@.len() == 0
                &&& self.storage_config is None
                &&& self.admission_facts_carrier_module_id is None
                &&& self.admission_facts_targets is None
                &&& self.route_bind_relay_default_ms is None
                &&& self.reserved_capabilities@.len() == 0
                &&& self.configured_port is None
            },
        }
    }

    fn with_file(self, path: &str, file: Option<DaemonConfig>) -> (r: BootstrapConfig<W>)
        ensures
            r.taken_from(self, path@, file),
    {
        let mut config: BootstrapConfig<W> = self;
        config.daemon_config_path = Some(path.to_owned());
        match file {
            Some(file) => {
                config.configured_modules = sort_by_id(file.modules);
                config.storage_config = file.storage;
                config.admission_facts_carrier_module_id = file.admission_facts_carrier_module_id;
                config.admission_facts_targets = file.admission_facts_targets;
                config.route_bind_relay_default_ms = file.route_bind_relay_timeout_ms;
                config.reserved_capabilities = file.reserved_capabilities;
                config.configured_port = file.port;
            },
            None => {
                config.configured_modules = Vec::new();
                config.storage_config = None;
                config.admission_facts_carrier_module_id = None;
                config.admission_facts_targets = None;
                config.route_bind_relay_default_ms = None;
                config.reserved_capabilities = Vec::new();
                config.configured_port = None;
            },
        }
        config
    }

    /// Takes over what the configuration file says.
    pub fn with_daemon_config_path(
        self,
        path: &str,
        loaded: Result<Option<DaemonConfig>, DaemonConfigError>,
    ) -> (r: Result<BootstrapConfig<W>, BootstrapError>)
        ensures
            match loaded {
                Err(e) => r == Err::<BootstrapConfig<W>, _>(BootstrapError::DaemonConfig(e)),
                Ok(file) => r matches Ok(config) && config.taken_from(self, path@, file),
            },
    {
        match loaded {
            Err(e) => Err(BootstrapError::DaemonConfig(e)),
            Ok(file) => Ok(self.with_file(path, file)),
        }
    }
}

/// The value of a string of decimal digits.
pub open spec fn digits_value(s: Seq<char>) -> nat
    decreases s.len(),
{
    if s.len() == 0 {
        0
    } else {
        digits_value(s.drop_last()) * 10 + ((s.last() as u32) - ('0' as u32)) as nat
    }
}

/// A decimal digit.
pub open spec fn decimal_digit(c: char) -> bool {
    '0' <= c && c <= '9'
}

/// Digits and at least one of them.
pub open spec fn all_digits(s: Seq<char>) -> bool {
    s.len() > 0 && forall|i: int| 0 <= i < s.len() ==> decimal_digit(#[trigger] s[i])
}

/// A text without the plus sign that it may start with.
pub open spec fn unsigned_part(raw: Seq<char>) -> Seq<char> {
    if raw.len() > 0 && raw[0] == '+' {
        raw.drop_first()
    } else {
        raw
    }
}

/// The port that a text stands for: digits, perhaps behind a plus sign, of a value
/// that a port can have.
pub open spec fn port_value(raw: Seq<char>) -> Option<nat> {
    if all_digits(unsigned_part(raw)) && digits_value(unsigned_part(raw)) <= u16::MAX {
        Some(digits_value(unsigned_part(raw)))
    } else {
        None
    }
}

/// Why a text is no port.
pub uninterp spec fn port_complaint(raw: Seq<char>) -> Seq<char>;

/// Calls `str::parse::<u16>` and, where it fails, renders its `ParseIntError`. It
/// reads digits, perhaps behind a plus sign, and no white space. The text of the
/// error depends on the characters alone.
#[verifier::external_body]
fn parse_port(raw: &str) -> (r: Result<u16, String>)
    ensures
        match r {
            Ok(port) => port_value(raw@) == Some(port as nat),
            Err(text) => port_value(raw@) is None && text@ == port_complaint(raw@),
        },
{
    raw.parse::<u16>().map_err(|error| error.to_string())
}

/// What of the environment decides where the daemon is found.
#[derive(Debug)]
pub struct StartEnvironment {
    /// The system is Windows.
    pub windows: bool,
    /// `SUBC_PORT`, where it is set and is text.
    pub port: Option<String>,
    /// `XDG_RUNTIME_DIR`.
    pub runtime_dir: Option<String>,
    /// `HOME`.
    pub home: Option<String>,
    pub temp_dir: String,
    pub user_token: String,
}

/// The port: that of the environment where it names one, else that of the file,
/// else the built-in one. A value that is not blank is never passed over.
pub open spec fn chosen_port(env_port: Option<String>, file_port: Option<u16>) -> Result<nat, Seq<
    char,
>> {
    let otherwise = match file_port {
        Some(port) => port as nat,
        None => DEFAULT_SUBC_PORT as nat,
    };
    match env_port {
        Some(raw) => if trimmed(raw@).len() > 0 {
            match port_value(raw@) {
                Some(port) => Ok(port),
                None => Err(port_complaint(raw@)),
            }
        } else {
            Ok(otherwise)
        },
        None => Ok(otherwise),
    }
}

/// Chooses the port.
pub fn choose_port(env_port: &Option<String>, file_port: Option<u16>) -> (r: Result<
    u16,
    BootstrapError,
>)
    ensures
        match r {
            Ok(port) => chosen_port(*env_port, file_port) == Ok::<_, Seq<char>>(port as nat),
            Err(e) => *env_port is Some && (e matches BootstrapError::InvalidPort { raw, source }
                && raw == (*env_port)->0 && chosen_port(*env_port, file_port) == Err::<nat, _>(
                source@,
            )),
        },
{
    let otherwise: u16 = match file_port {
        Some(port) => port,
        None => DEFAULT_SUBC_PORT,
    };
    match env_port {
        Some(raw) => if trim(raw.as_str()).unicode_len() > 0 {
            match parse_port(raw.as_str()) {
                Ok(port) => Ok(port),
                Err(source) => Err(BootstrapError::InvalidPort { raw: raw.clone(), source }),
            }
        } else {
            Ok(otherwise)
        },
        None => Ok(otherwise),
    }
}

/// The port that the configuration file names.
pub open spec fn file_port(file: Option<DaemonConfig>) -> Option<u16> {
    match file {
        Some(file) => file.port,
        None => None,
    }
}

impl<W> BootstrapConfig<W> {
    /// What the environment and the configuration file say.
    pub fn from_env_with_daemon_config_path(
        path: &str,
        loaded: Result<Option<DaemonConfig>, DaemonConfigError>,
        env: &StartEnvironment,
        daemon_ver: String,
    ) -> (r: Result<BootstrapConfig<W>, BootstrapError>)
        ensures
            match loaded {
                Err(e) => r == Err::<BootstrapConfig<W>, _>(BootstrapError::DaemonConfig(e)),
                Ok(file) => match chosen_port(env.port, file_port(file)) {
                    Err(complaint) => r matches Err(BootstrapError::InvalidPort { raw, source })
                        && Some(raw) == env.port && source@ == complaint,
                    Ok(port) => {
                        &&& r matches Ok(config)
                        &&& config.taken_from(config, path@, file)
                        &&& config.port == port
                        &&& config.daemon_ver == daemon_ver
                        &&& (config.connection_file_path@, config.connection_file_source)
                            == connection_file(
                            env.windows,
                            env.runtime_dir,
                            env.home,
                            env.temp_dir@,
                            env.user_token@,
                        )
                        &&& config.watchdog_config is None
                        &&& config.cgroup_placement is Disabled
                        &&& config.capture_logs_dir is None
                        &&& config.terminal_journal_path is None
                        &&& config.machine_id_path is None
                        &&& config.live_children_path is None
                    },
                },
            },
    {
        let file: Option<DaemonConfig> = match loaded {
            Err(e) => return Err(BootstrapError::DaemonConfig(e)),
            Ok(file) => file,
        };
        let named: Option<u16> = match &file {
            Some(file) => file.port,
            None => None,
        };
        let port: u16 = match choose_port(&env.port, named) {
            Ok(port) => port,
            Err(e) => return Err(e),
        };
        let (connection_file_path, source) = connection_file_path_with_source(
            env.windows,
            &env.runtime_dir,
            &env.home,
            env.temp_dir.as_str(),
            env.user_token.as_str(),
        );
        let mut config: BootstrapConfig<W> = BootstrapConfig::new(
            connection_file_path,
            port,
            daemon_ver,
        );
        config.connection_file_source = source;
        Ok(config.with_file(path, file))
    }

    /// What the daemon's own program is started with: alone among all daemons it
    /// writes to the user's run directory and keeps the machine's id in the data
    /// home. Where the run directory is relative it is not started.
    pub fn from_env_for_daemon_binary(
        base: Result<BootstrapConfig<W>, BootstrapError>,
        run_dir: Result<String, DaemonRunDirError>,
        data_home: &str,
        windows: bool,
    ) -> (r: Result<BootstrapConfig<W>, BootstrapError>)
        ensures
            match (run_dir, base) {
                (Err(e), _) => r == Err::<BootstrapConfig<W>, _>(BootstrapError::RunDir(e)),
                (Ok(_), Err(e)) => r == Err::<BootstrapConfig<W>, _>(e),
                (Ok(dir), Ok(base)) => {
                    &&& r matches Ok(config)
                    &&& config == (BootstrapConfig {
                        capture_logs_dir: config.capture_logs_dir,
                        terminal_journal_path: config.terminal_journal_path,
                        live_children_path: config.live_children_path,
                        machine_id_path: config.machine_id_path,
                        ..base
                    })
                    &&& config.capture_logs_dir matches Some(logs)
                    &&& logs@ == joined_name(windows, dir@, "logs"@)
                    &&& config.terminal_journal_path matches Some(journal)
                    &&& journal@ == joined_name(windows, dir@, "terminals.jsonl"@)
                    &&& config.live_children_path matches Some(children)
                    &&& children@ == joined_name(windows, dir@, "live-children.json"@)
                    &&& config.machine_id_path matches Some(id)
                    &&& id@ == joined_names(windows, data_home@, "cortexkit"@, "machine-id"@)
                },
            },
    {
        let dir: String = match run_dir {
            Ok(dir) => dir,
            Err(e) => return Err(BootstrapError::RunDir(e)),
        };
        let base: BootstrapConfig<W> = match base {
            Ok(base) => base,
            Err(e) => return Err(e),
        };
        Ok(
            base.with_capture_logs_dir(
                join_name(windows, dir.as_str(), "logs"),
            ).with_terminal_journal_path(
                join_name(windows, dir.as_str(), "terminals.jsonl"),
            ).with_live_children_record(
                join_name(windows, dir.as_str(), "live-children.json"),
            ).with_machine_id_path(
                join_names(windows, data_home, "cortexkit", "machine-id"),
            ),
        )
    }
}

proof fn decimal_reads_back(n: nat)
    ensures
        all_digits(decimal(n)),
        digits_value(decimal(n)) == n,
    decreases n,
{
    let s = decimal(n);
    if n < 10 {
        assert(s.drop_last() =~= Seq::empty());
        assert(s.last() == digit(n));
        assert(digits_value(s.drop_last()) == 0);
    } else {
        decimal_reads_back(n / 10);
        assert(s.drop_last() =~= decimal(n / 10));
        assert(s.last() == digit(n % 10));
        assert forall|i: int| 0 <= i < s.len() implies decimal_digit(#[trigger] s[i]) by {
            if i < s.len() - 1 {
                assert(s[i] == decimal(n / 10)[i]);
            }
        }
    }
}

/// A port that is written in decimal in the environment is the port, whatever the
/// file says.
pub proof fn a_decimal_port_is_taken(port: u16, raw: String, file: Option<u16>)
    requires
        raw@ == decimal(port as nat),
    ensures
        chosen_port(Some(raw), file) == Ok::<_, Seq<char>>(port as nat),
{
    decimal_reads_back(port as nat);
    assert(decimal_digit(raw@[0]));
    assert(decimal_digit(raw@[raw@.len() - 1]));
    a_text_without_white_space_at_its_ends_is_kept(raw@);
    assert(unsigned_part(raw@) == raw@);
}

} // verus!
