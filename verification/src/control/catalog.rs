//! What the registered modules provide: how they change it, and what clients are
//! told of it.
use crate::control::breaker::OpenBreaker;
use crate::control::fault::{backend, backend_fault, FaultView, RouterError};
use crate::control::manifest::{
    capabilities_view, capability_census_trigger, catalog_update_frozen_field_message, census_due,
    frozen_field_message, lane_of, role_kinds, role_views, CapabilityDeclarations, ModuleManifest, ProviderRole,
};
use crate::control::ops::{subc_op_names, subc_ops};
use crate::control::wire::{control_error, error_of, ErrorBody, ErrorView, PROTOCOL_VERSION};
use crate::text::{copy_texts, same, texts};
use vstd::prelude::*;

verus! {

/// What became of a module's catalog update.
#[derive(Debug)]
pub enum CatalogUpdateStep {
    Fault(RouterError),
    Refused(ErrorBody),
    /// The registry may take it. Whether the module speaks new declarations or
    /// keeps its old ones.
    Replace { keeps_capabilities: bool },
}

/// A [`CatalogUpdateStep`] over characters.
#[verifier::ext_equal]
pub enum UpdateStepView {
    Fault(FaultView),
    Refused(ErrorView),
    Replace { keeps_capabilities: bool },
}

impl View for CatalogUpdateStep {
    type V = UpdateStepView;

    open spec fn view(&self) -> UpdateStepView {
        match *self {
            CatalogUpdateStep::Fault(f) => UpdateStepView::Fault(f@),
            CatalogUpdateStep::Refused(e) => UpdateStepView::Refused(e@),
            CatalogUpdateStep::Replace { keeps_capabilities } => UpdateStepView::Replace {
                keeps_capabilities,
            },
        }
    }
}

/// What is told of an update from a connection that holds no registration.
pub open spec fn not_registered() -> ErrorView {
    error_of(
        "not_registered"@,
        "catalog.update requires an active module registration owned by this connection"@,
    )
}

fn refuse_unregistered() -> (r: ErrorBody)
    ensures
        r@ == not_registered(),
{
    control_error(
        "not_registered",
        String::from_str(
            "catalog.update requires an active module registration owned by this connection",
        ),
    )
}

/// Where an update goes. What was fixed when the module said HELLO stays, and
/// what it declares follows the grammar of capabilities: `grammar_error` is what
/// is wrong with the declarations that would hold, its new ones or else the old.
pub open spec fn update_step(
    registered: Result<Option<ModuleManifest>, String>,
    provides: Seq<ProviderRole>,
    new_capabilities: bool,
    grammar_error: Option<String>,
    corr: u64,
) -> UpdateStepView {
    match registered {
        Err(text) => UpdateStepView::Fault(backend_fault(corr, text@)),
        Ok(None) => UpdateStepView::Refused(not_registered()),
        Ok(Some(m)) => match frozen_field_message(
            m@.module_id,
            m@.provides,
            role_views(provides),
        ) {
            Some(message) => UpdateStepView::Refused(
                error_of("catalog_update_frozen_field"@, message),
            ),
            None => match grammar_error {
                Some(text) => UpdateStepView::Refused(
                    error_of("invalid_capability_grammar"@, text@),
                ),
                None => UpdateStepView::Replace { keeps_capabilities: !new_capabilities },
            },
        },
    }
}

/// Decides where an update goes.
pub fn catalog_update_step(
    registered: &Result<Option<ModuleManifest>, String>,
    provides: &Vec<ProviderRole>,
    new_capabilities: bool,
    grammar_error: Option<String>,
    corr: u64,
) -> (r: CatalogUpdateStep)
    ensures
        r@ == update_step(*registered, provides@, new_capabilities, grammar_error, corr),
{
    match registered {
        Err(text) => CatalogUpdateStep::Fault(backend(corr, text.clone())),
        Ok(None) => CatalogUpdateStep::Refused(refuse_unregistered()),
        Ok(Some(m)) => {
            if let Some(message) = catalog_update_frozen_field_message(m, provides) {
                return CatalogUpdateStep::Refused(
                    control_error("catalog_update_frozen_field", message),
                );
            }
            match grammar_error {
                Some(text) => CatalogUpdateStep::Refused(
                    control_error("invalid_capability_grammar", text),
                ),
                None => CatalogUpdateStep::Replace { keeps_capabilities: !new_capabilities },
            }
        },
    }
}

/// What follows from an update that the registry was given.
#[derive(Debug)]
pub enum CatalogUpdated {
    Fault(RouterError),
    Refused(ErrorBody),
    /// Whether live routes are looked at anew: only where the change can forbid
    /// one.
    Done { census: bool },
}

/// A [`CatalogUpdated`] over characters.
#[verifier::ext_equal]
pub enum UpdatedView {
    Fault(FaultView),
    Refused(ErrorView),
    Done { census: bool },
}

impl View for CatalogUpdated {
    type V = UpdatedView;

    open spec fn view(&self) -> UpdatedView {
        match *self {
            CatalogUpdated::Fault(f) => UpdatedView::Fault(f@),
            CatalogUpdated::Refused(e) => UpdatedView::Refused(e@),
            CatalogUpdated::Done { census } => UpdatedView::Done { census },
        }
    }
}

/// What follows from an update. `updated` holds the declarations that now stand,
/// or nothing where the registration went meanwhile.
pub open spec fn updated_of(
    old: Option<CapabilityDeclarations>,
    updated: Result<Option<Option<CapabilityDeclarations>>, String>,
    corr: u64,
) -> UpdatedView {
    match updated {
        Err(text) => UpdatedView::Fault(backend_fault(corr, text@)),
        Ok(None) => UpdatedView::Refused(not_registered()),
        Ok(Some(new)) => UpdatedView::Done {
            census: census_due(capabilities_view(old), capabilities_view(new)),
        },
    }
}

/// Decides what follows from an update.
pub fn catalog_updated(
    old: &Option<CapabilityDeclarations>,
    updated: Result<Option<Option<CapabilityDeclarations>>, String>,
    corr: u64,
) -> (r: CatalogUpdated)
    ensures
        r@ == updated_of(*old, updated, corr),
{
    match updated {
        Err(text) => CatalogUpdated::Fault(backend(corr, text)),
        Ok(None) => CatalogUpdated::Refused(refuse_unregistered()),
        Ok(Some(new)) => CatalogUpdated::Done {
            census: capability_census_trigger(old.as_ref(), new.as_ref()),
        },
    }
}

/// A registered module as the registry lists it. `R` is what it provides, `C` what
/// it declares, `S` its own signals.
#[derive(Debug)]
pub struct ListedModule<R, C, S> {
    pub module_id: String,
    pub module_version: String,
    pub ready: bool,
    pub roles: R,
    pub control_ops: Vec<String>,
    pub capabilities: C,
    pub self_signals: S,
}

/// A registered module as clients are told of it.
#[derive(Debug)]
pub struct CatalogEntry<R, C, S> {
    pub module_id: String,
    pub ready: bool,
    pub module_version: Option<String>,
    pub roles: R,
    pub control_ops: Vec<String>,
    pub capabilities: C,
    pub self_signals: S,
}

/// The modules of the wanted id, or all of them where none is wanted, in their
/// order.
pub open spec fn wanted_modules<R, C, S>(
    modules: Seq<ListedModule<R, C, S>>,
    wanted: Option<Seq<char>>,
) -> Seq<CatalogEntry<R, C, S>>
    decreases modules.len(),
{
    if modules.len() == 0 {
        Seq::empty()
    } else {
        let before = wanted_modules(modules.drop_last(), wanted);
        let m = modules.last();
        if wanted is None || wanted == Some(m.module_id@) {
            before.push(
                CatalogEntry {
                    module_id: m.module_id,
                    ready: m.ready,
                    module_version: Some(m.module_version),
                    roles: m.roles,
                    control_ops: m.control_ops,
                    capabilities: m.capabilities,
                    self_signals: m.self_signals,
                },
            )
        } else {
            before
        }
    }
}

/// The registered modules, as of a generation of the registry, and what the daemon
/// serves.
#[derive(Debug)]
pub struct CatalogList<R, C, S> {
    pub generation: u64,
    pub modules: Vec<CatalogEntry<R, C, S>>,
    pub subc_ops: Vec<String>,
}

/// Lists the registered modules.
pub fn catalog_list<R, C, S>(
    listed: Result<(u64, Vec<ListedModule<R, C, S>>), String>,
    module_id: Option<&str>,
    corr: u64,
) -> (r: Result<CatalogList<R, C, S>, RouterError>)
    ensures
        match listed {
            Err(text) => r matches Err(e) && e@ == backend_fault(corr, "registry error: "@ + text@),
            Ok((generation, modules)) => r matches Ok(list) && list.generation == generation
                && texts(list.subc_ops@) == subc_op_names() && list.modules@ == wanted_modules(
                modules@,
                match module_id {
                    Some(id) => Some(id@),
                    None => None,
                },
            ),
        },
{
    let (generation, modules) = match listed {
        Err(text) => return Err(
            backend(corr, String::from_str("registry error: ").concat(text.as_str())),
        ),
        Ok(listed) => listed,
    };
    let ghost all = modules@;
    let ghost wanted: Option<Seq<char>> = match module_id {
        Some(id) => Some(id@),
        None => None,
    };
    let n: usize = modules.len();
    let mut rest: Vec<ListedModule<R, C, S>> = modules;
    let mut entries: Vec<CatalogEntry<R, C, S>> = Vec::new();
    let mut i: usize = 0;
    while i < n
        invariant
            i <= n,
            n == all.len(),
            rest@ == all.skip(i as int),
            module_id is Some <==> wanted is Some,
            module_id matches Some(id) ==> wanted == Some(id@),
            entries@ == wanted_modules(all.take(i as int), wanted),
        decreases n - i,
    {
        let m: ListedModule<R, C, S> = rest.remove(0);
        proof {
            assert(m == all[i as int]);
            assert(rest@ =~= all.skip(i + 1));
            assert(all.take(i + 1).drop_last() =~= all.take(i as int));
            assert(all.take(i + 1).last() == all[i as int]);
        }
        let is_wanted: bool = match module_id {
            Some(id) => same(m.module_id.as_str(), id),
            None => true,
        };
        if is_wanted {
            entries.push(
                CatalogEntry {
                    module_id: m.module_id,
                    ready: m.ready,
                    module_version: Some(m.module_version),
                    roles: m.roles,
                    control_ops: m.control_ops,
                    capabilities: m.capabilities,
                    self_signals: m.self_signals,
                },
            );
        }
        i += 1;
    }
    proof {
        assert(all.take(i as int) =~= all);
    }
    Ok(CatalogList { generation, modules: entries, subc_ops: subc_ops() })
}

/// What the daemon tells of itself. `N` are its counters, `Q` the state of a
/// required capability.
#[derive(Debug)]
pub struct ServerDescribe<N, Q> {
    pub protocol_ver: u8,
    pub subc_ops: Vec<String>,
    pub capabilities: Vec<String>,
    pub connected_clients: usize,
    pub counters: N,
    /// How many connections hold routes, and how many the fullest of them holds.
    /// Absent where the forwarding table could not say.
    pub route_concentration: Option<(usize, usize)>,
    /// Absent where no breaker is open.
    pub route_bind_breakers_open: Option<Vec<OpenBreaker>>,
    pub build_git_sha: String,
    pub build_lock_digest: String,
    pub capability_requirements: Vec<Q>,
}

/// Describes the daemon. A forwarding table that cannot be read leaves its figures
/// out and the rest stands.
pub fn server_describe<N, Q>(
    capabilities: &Vec<String>,
    connected_clients: usize,
    counters: N,
    route_concentration: Result<(usize, usize), String>,
    open_breakers: Option<Vec<OpenBreaker>>,
    build_git_sha: &str,
    build_lock_digest: &str,
    capability_requirements: Vec<Q>,
) -> (r: ServerDescribe<N, Q>)
    ensures
        r.protocol_ver == PROTOCOL_VERSION,
        texts(r.subc_ops@) == subc_op_names(),
        texts(r.capabilities@) == texts(capabilities@),
        r.connected_clients == connected_clients,
        r.counters == counters,
        r.route_concentration == (match route_concentration {
            Ok(figures) => Some(figures),
            Err(_) => None,
        }),
        r.route_bind_breakers_open == open_breakers,
        r.build_git_sha@ == build_git_sha@,
        r.build_lock_digest@ == build_lock_digest@,
        r.capability_requirements == capability_requirements,
{
    ServerDescribe {
        protocol_ver: PROTOCOL_VERSION,
        subc_ops: subc_ops(),
        capabilities: copy_texts(capabilities),
        connected_clients,
        counters,
        route_concentration: match route_concentration {
            Ok(figures) => Some(figures),
            Err(_) => None,
        },
        route_bind_breakers_open: open_breakers,
        build_git_sha: build_git_sha.to_owned(),
        build_lock_digest: build_lock_digest.to_owned(),
        capability_requirements,
    }
}

/// An update that the registry may take keeps what was fixed when the module said
/// HELLO: whether it has roles, which kinds they are, and the lane they run on.
pub proof fn an_update_keeps_what_hello_fixed(
    m: ModuleManifest,
    provides: Seq<ProviderRole>,
    new_capabilities: bool,
    grammar_error: Option<String>,
    corr: u64,
)
    ensures
        update_step(
            Ok(Some(m)),
            provides,
            new_capabilities,
            grammar_error,
            corr,
        ) is Replace ==> {
            &&& m@.provides.len() > 0 <==> provides.len() > 0
            &&& role_kinds(m@.provides) == role_kinds(role_views(provides))
            &&& lane_of(m@.provides) == lane_of(role_views(provides))
        },
{
}

} // verus!
