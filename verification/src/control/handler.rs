//! What the control plane of a daemon is set up with.
use crate::control::breaker::{
    DEFAULT_ROUTE_BIND_BREAKER_COOLDOWN_SECS, DEFAULT_ROUTE_BIND_BREAKER_THRESHOLD,
};
use crate::control::dispatch::{
    control_step, dispatch_control_frame, refuse_frame, unsupported, ControlFrameFacts, ControlStep,
    ControlStepView,
};
use crate::control::health_probe::DEFAULT_HEALTH_PROBE_TIMEOUT_SECS;
use crate::control::hello::{subc_capabilities, subc_capability_names};
use crate::control::pushes::{cleanup_end, CleanupEnd};
use crate::control::rescan::RescanContext;
use crate::control::route_open::{AdmissionFactsPolicy, BreakerPolicy};
use crate::control::wire::FrameType;
use crate::daemon_config::document::storage_home;
use crate::daemon_config::validate::text_list;
use crate::daemon_config::StorageConfig;
use crate::span::{Span, NANOS_PER_SEC};
use crate::text::{copy_option, copy_texts, text_option, texts};
use crate::text_map::TextMap;
use vstd::prelude::*;

verus! {

/// Seconds that a module has to acknowledge a bind where nothing else is
/// configured. To wait for a slow bind costs less than to reject a valid one.
pub const DEFAULT_ROUTE_BIND_RELAY_TIMEOUT_SECS: u64 = 12;

/// Seconds after which a client gives a request up where nothing else is
/// configured.
pub const CLIENT_REQUEST_DEADLINE_SECS: u64 = 30;

/// What is known of the daemon's own process.
#[derive(Debug)]
pub struct DaemonProvenance {
    pub pid: Option<u32>,
    pub started_at_ms: Option<u64>,
    pub executable_path: Option<String>,
    pub build_git_sha: Option<String>,
    pub build_lock_digest: Option<String>,
}

/// What the control plane of a daemon is set up with.
#[derive(Debug)]
pub struct ControlHandler {
    pub subc_capabilities: Vec<String>,
    /// How long a bind may take where the module has no budget of its own.
    pub route_bind_relay_timeout: Span,
    /// The modules' own budgets.
    pub route_bind_relay_timeouts: TextMap<Span>,
    /// How many timeouts in a row open a module's breaker, and for how long.
    pub route_bind_breaker: BreakerPolicy,
    pub health_probe_timeout: Span,
    pub storage_config: Option<StorageConfig>,
    pub admission_facts: AdmissionFactsPolicy,
    pub rescan: Option<RescanContext>,
    /// The configured modules, with whether they are enabled.
    pub capability_modules: Vec<(String, bool)>,
    /// Capabilities, each with the one module that it is reserved to.
    pub reserved_capabilities: Vec<(String, String)>,
    pub daemon_provenance: DaemonProvenance,
}

/// The budgets of a list; of two for one id, the later.
pub open spec fn budgets(list: Seq<(String, Span)>) -> Map<Seq<char>, Span>
    decreases list.len(),
{
    if list.len() == 0 {
        Map::empty()
    } else {
        budgets(list.drop_last()).insert(list.last().0@, list.last().1)
    }
}

impl ControlHandler {
    /// The budgets can be looked up, and a breaker takes a timeout to open.
    pub open spec fn wf(&self) -> bool {
        self.route_bind_relay_timeouts.wf() && self.route_bind_breaker.threshold > 0
    }

    /// A control plane with the built-in values and nothing configured.
    pub fn new() -> (r: ControlHandler)
        ensures
            r.wf(),
            texts(r.subc_capabilities@) == subc_capability_names(),
            r.route_bind_relay_timeout@ == DEFAULT_ROUTE_BIND_RELAY_TIMEOUT_SECS * NANOS_PER_SEC,
            r.route_bind_relay_timeouts@ == Map::<Seq<char>, Span>::empty(),
            r.route_bind_breaker.threshold == DEFAULT_ROUTE_BIND_BREAKER_THRESHOLD,
            r.route_bind_breaker.cooldown@ == DEFAULT_ROUTE_BIND_BREAKER_COOLDOWN_SECS
                * NANOS_PER_SEC,
            r.health_probe_timeout@ == DEFAULT_HEALTH_PROBE_TIMEOUT_SECS * NANOS_PER_SEC,
            r.storage_config is None,
            r.admission_facts.carrier_module_id is None,
            r.admission_facts.targets is None,
            r.rescan is None,
            r.capability_modules@.len() == 0,
            r.reserved_capabilities@.len() == 0,
            r.daemon_provenance == (DaemonProvenance {
                pid: None,
                started_at_ms: None,
                executable_path: None,
                build_git_sha: None,
                build_lock_digest: None,
            }),
    {
        ControlHandler {
            subc_capabilities: subc_capabilities(),
            route_bind_relay_timeout: Span::from_secs(DEFAULT_ROUTE_BIND_RELAY_TIMEOUT_SECS),
            route_bind_relay_timeouts: TextMap::new(),
            route_bind_breaker: BreakerPolicy {
                threshold: DEFAULT_ROUTE_BIND_BREAKER_THRESHOLD,
                cooldown: Span::from_secs(DEFAULT_ROUTE_BIND_BREAKER_COOLDOWN_SECS),
            },
            health_probe_timeout: Span::from_secs(DEFAULT_HEALTH_PROBE_TIMEOUT_SECS),
            storage_config: None,
            admission_facts: AdmissionFactsPolicy { carrier_module_id: None, targets: None },
            rescan: None,
            capability_modules: Vec::new(),
            reserved_capabilities: Vec::new(),
            daemon_provenance: DaemonProvenance {
                pid: None,
                started_at_ms: None,
                executable_path: None,
                build_git_sha: None,
                build_lock_digest: None,
            },
        }
    }

    /// Sets the storage policy: a module that registers is told of its store.
    pub fn with_storage_config(self, storage_config: Option<StorageConfig>) -> (r: ControlHandler)
        ensures
            r == (ControlHandler { storage_config, ..self }),
    {
        let mut handler: ControlHandler = self;
        handler.storage_config = storage_config;
        handler
    }

    /// Sets who may carry admission facts, and to whom.
    pub fn with_admission_facts_config(
        self,
        carrier_module_id: Option<String>,
        targets: Option<Vec<String>>,
    ) -> (r: ControlHandler)
        ensures
            r == (ControlHandler {
                admission_facts: AdmissionFactsPolicy { carrier_module_id, targets },
                ..self
            }),
    {
        let mut handler: ControlHandler = self;
        handler.admission_facts = AdmissionFactsPolicy { carrier_module_id, targets };
        handler
    }

    /// Sets how long a bind may take where the module has no budget of its own.
    pub fn with_route_bind_relay_timeout(self, timeout: Span) -> (r: ControlHandler)
        ensures
            r == (ControlHandler { route_bind_relay_timeout: timeout, ..self }),
    {
        let mut handler: ControlHandler = self;
        handler.route_bind_relay_timeout = timeout;
        handler
    }

    /// Sets the modules' own budgets, in place of those that were set before.
    pub fn with_route_bind_relay_timeouts(self, timeouts: &Vec<(String, Span)>) -> (r:
        ControlHandler)
        ensures
            r == (ControlHandler {
                route_bind_relay_timeouts: r.route_bind_relay_timeouts,
                ..self
            }),
            r.route_bind_relay_timeouts.wf(),
            r.route_bind_relay_timeouts@ == budgets(timeouts@),
    {
        let mut map: TextMap<Span> = TextMap::new();
        let mut i: usize = 0;
        while i < timeouts.len()
            invariant
                i <= timeouts.len(),
                map.wf(),
                map@ == budgets(timeouts@.take(i as int)),
            decreases timeouts.len() - i,
        {
            map.insert(timeouts[i].0.as_str(), timeouts[i].1);
            proof {
                assert(timeouts@.take(i + 1).drop_last() =~= timeouts@.take(i as int));
                assert(timeouts@.take(i + 1).last() == timeouts@[i as int]);
            }
            i += 1;
        }
        proof {
            assert(timeouts@.take(i as int) =~= timeouts@);
        }
        let mut handler: ControlHandler = self;
        handler.route_bind_relay_timeouts = map;
        handler
    }

    /// How long a bind to the module may take: its own budget wins.
    pub fn route_bind_relay_timeout_for(&self, module_id: &str) -> (r: Span)
        requires
            self.wf(),
        ensures
            r == if self.route_bind_relay_timeouts@.dom().contains(module_id@) {
                self.route_bind_relay_timeouts@[module_id@]
            } else {
                self.route_bind_relay_timeout
            },
    {
        match self.route_bind_relay_timeouts.get(module_id) {
            Some(timeout) => *timeout,
            None => self.route_bind_relay_timeout,
        }
    }

    /// Sets how many timeouts in a row open a module's breaker, one at the least,
    /// and for how long.
    pub fn with_route_bind_breaker(self, threshold: u32, cooldown: Span) -> (r: ControlHandler)
        ensures
            r == (ControlHandler {
                route_bind_breaker: BreakerPolicy {
                    threshold: if threshold == 0 {
                        1
                    } else {
                        threshold
                    },
                    cooldown,
                },
                ..self
            }),
            self.wf() ==> r.wf(),
    {
        let mut handler: ControlHandler = self;
        handler.route_bind_breaker = BreakerPolicy {
            threshold: if threshold == 0 {
                1
            } else {
                threshold
            },
            cooldown,
        };
        handler
    }

    /// Sets how long a module has to answer a probe.
    pub fn with_health_probe_timeout(self, timeout: Span) -> (r: ControlHandler)
        ensures
            r == (ControlHandler { health_probe_timeout: timeout, ..self }),
    {
        let mut handler: ControlHandler = self;
        handler.health_probe_timeout = timeout;
        handler
    }

    /// Sets what is known of the daemon's own process.
    pub fn with_daemon_provenance(
        self,
        pid: u32,
        started_at_ms: u64,
        executable_path: Option<String>,
        build_git_sha: Option<String>,
        build_lock_digest: Option<String>,
    ) -> (r: ControlHandler)
        ensures
            r == (ControlHandler {
                daemon_provenance: DaemonProvenance {
                    pid: Some(pid),
                    started_at_ms: Some(started_at_ms),
                    executable_path,
                    build_git_sha,
                    build_lock_digest,
                },
                ..self
            }),
    {
        let mut handler: ControlHandler = self;
        handler.daemon_provenance = DaemonProvenance {
            pid: Some(pid),
            started_at_ms: Some(started_at_ms),
            executable_path,
            build_git_sha,
            build_lock_digest,
        };
        handler
    }

    /// Sets the configured modules and the capabilities that are reserved. A
    /// capability may be reserved to a module that is not installed yet.
    pub fn with_capability_config(
        self,
        modules: Vec<(String, bool)>,
        reserved_capabilities: Vec<(String, String)>,
    ) -> (r: ControlHandler)
        ensures
            r == (ControlHandler { capability_modules: modules, reserved_capabilities, ..self }),
    {
        let mut handler: ControlHandler = self;
        handler.capability_modules = modules;
        handler.reserved_capabilities = reserved_capabilities;
        handler
    }

    /// Lets the configuration be read again from `config_path`. What the daemon
    /// is set up with by now is what later readings are compared with.
    pub fn with_supervisor_rescan(
        self,
        config_path: &str,
        configured_port: Option<u16>,
        windows: bool,
    ) -> (r: ControlHandler)
        ensures
            r == (ControlHandler { rescan: r.rescan, ..self }),
            r.rescan matches Some(context) && {
                &&& context.config_path@ == config_path@
                &&& context.configured_port == configured_port
                &&& context.windows == windows
                &&& storage_home(context.storage_config) == storage_home(self.storage_config)
                &&& text_option(context.admission_facts_carrier_module_id) == text_option(
                    self.admission_facts.carrier_module_id,
                )
                &&& text_list(context.admission_facts_targets) == text_list(
                    self.admission_facts.targets,
                )
            },
    {
        let mut handler: ControlHandler = self;
        let storage_config: Option<StorageConfig> = match &handler.storage_config {
            Some(StorageConfig::Sqlite { data_home }) => Some(
                StorageConfig::Sqlite { data_home: data_home.clone() },
            ),
            None => None,
        };
        let admission_facts_targets: Option<Vec<String>> = match &handler.admission_facts.targets {
            Some(targets) => Some(copy_texts(targets)),
            None => None,
        };
        handler.rescan = Some(
            RescanContext {
                windows,
                config_path: config_path.to_owned(),
                configured_port,
                storage_config,
                admission_facts_carrier_module_id: copy_option(
                    &handler.admission_facts.carrier_module_id,
                ),
                admission_facts_targets,
            },
        );
        handler
    }

    /// Finds the handler of a frame where no connection is served: only a ping, a
    /// HELLO and a GOODBYE have one.
    pub fn handle_control(&self, ty: FrameType) -> (r: ControlStep)
        ensures
            r@ == (match ty {
                FrameType::Ping => ControlStepView::Pong,
                FrameType::Hello => ControlStepView::Hello,
                FrameType::Goodbye => ControlStepView::Goodbye,
                _ => unsupported(ty),
            }),
    {
        match ty {
            FrameType::Ping => ControlStep::Pong,
            FrameType::Hello => ControlStep::Hello,
            FrameType::Goodbye => ControlStep::Goodbye,
            _ => refuse_frame(ty),
        }
    }

    /// Finds the handler of a frame on channel 0.
    pub fn handle_control_frame(&self, ty: FrameType, facts: ControlFrameFacts) -> (r: ControlStep)
        ensures
            r@ == control_step(ty, facts),
    {
        dispatch_control_frame(ty, facts)
    }

    /// Ends the cleanup of a connection.
    pub fn cleanup_connection(&self, registrations: Option<usize>, forwarding_cleared: bool) -> (r:
        CleanupEnd)
        ensures
            r.goodbyes == forwarding_cleared,
            r.release == (registrations matches Some(n) && n > 0),
    {
        cleanup_end(registrations, forwarding_cleared)
    }
}

/// With the built-in values a breaker cannot open within one client's call, a
/// recovered module is tried again within one, and a module that stays away costs
/// less than a full budget out of each cooldown.
pub proof fn the_built_in_breaker_spares_clients()
    ensures
        DEFAULT_ROUTE_BIND_BREAKER_THRESHOLD * DEFAULT_ROUTE_BIND_RELAY_TIMEOUT_SECS
            > CLIENT_REQUEST_DEADLINE_SECS,
        DEFAULT_ROUTE_BIND_RELAY_TIMEOUT_SECS < DEFAULT_ROUTE_BIND_BREAKER_COOLDOWN_SECS
            < CLIENT_REQUEST_DEADLINE_SECS,
{
}

} // verus!
