//! A module's HELLO: what it must prove and declare before it is registered, and
//! what it is told when it is.
use crate::control::fault::{
    forwarding_code, forwarding_error_code, FaultView, ForwardingError, ForwardingFailure,
    RouterError,
};
use crate::control::manifest::{
    capability_census_trigger, census_due, manifest_concurrency, manifest_provides_routable_role,
    lane_of, routable, Concurrency, ManifestView, ModuleManifest, ProviderRole,
};
use crate::control::ops::{
    effective_module_control_ops, effective_ops, module_subc_ops, module_to_subc_op_names,
    subc_op_names,
};
use crate::control::wire::{
    control_error, error_of, negotiate_version, version_refusal, ErrorBody, ErrorView,
    PROTOCOL_VERSION,
};
use crate::daemon_config::{store_of, StorageConfig, StorageDescriptor};
use crate::json::{
    json_array_at, json_array_len, json_error, json_failure, json_has, json_holds, json_text,
    json_text_at,
};
use crate::text::{decimal, decimal_text, same, texts, trim, trimmed};
use vstd::prelude::*;

verus! {

/// A module's HELLO, decoded.
#[derive(Debug)]
pub struct ModuleHello {
    pub manifest: ModuleManifest,
    pub protocol_ver: u8,
    /// The operations that the module serves beyond the baseline.
    pub control_ops: Option<Vec<String>>,
    /// The nonce that the daemon gave the process when it spawned it.
    pub launch_nonce: Option<String>,
}

/// Why the supervisor does not let a HELLO claim its module id.
#[derive(Debug)]
pub enum ReservedHelloRejection {
    /// The id itself is reserved.
    Exact { module_id: String },
    /// The id stands under a prefix that another module owns.
    Prefix { prefix: String, owner_module_id: String },
}

/// A capability that is reserved for another module than the one that claims it.
#[derive(Debug)]
pub struct ReservedCapability {
    pub capability: String,
    pub bound_module: String,
}

/// Everything that the gates of a HELLO read beside its bytes. A reading that
/// failed matters only to a HELLO that gets as far as its gate.
#[derive(Debug)]
pub struct HelloFacts {
    /// The verdict on the capability grammar.
    pub capability_grammar: Result<(), String>,
    /// The verdict on the self-signal declarations.
    pub self_signals: Result<(), String>,
    /// The verdict on the manifest's provenance; it counts only where the
    /// manifest has one.
    pub provenance: Result<(), String>,
    pub hello: Result<ModuleHello, String>,
    pub reserved: Option<ReservedHelloRejection>,
    pub reserved_capability: Option<ReservedCapability>,
    pub has_client_routes: Result<bool, ForwardingError>,
}

/// What the gates of a HELLO decide.
#[derive(Debug)]
pub enum HelloGate {
    Fault(RouterError),
    Refused(ErrorBody),
    /// The module may be entered in the registry with this version and these
    /// operations.
    Register { manifest: ModuleManifest, negotiated_ver: u8, control_ops: Vec<String> },
}

/// A [`HelloGate`] over characters.
#[verifier::ext_equal]
pub enum HelloGateView {
    Fault(FaultView),
    Refused(ErrorView),
    Register { manifest: ManifestView, negotiated_ver: u8, control_ops: Seq<Seq<char>> },
}

impl View for HelloGate {
    type V = HelloGateView;

    open spec fn view(&self) -> HelloGateView {
        match *self {
            HelloGate::Fault(f) => HelloGateView::Fault(f@),
            HelloGate::Refused(e) => HelloGateView::Refused(e@),
            HelloGate::Register { manifest, negotiated_ver, control_ops } =>
                HelloGateView::Register {
                    manifest: manifest@,
                    negotiated_ver,
                    control_ops: texts(control_ops@),
                },
        }
    }
}

/// What is told of a HELLO that cannot be decoded.
pub open spec fn malformed_hello(text: Seq<char>) -> ErrorView {
    error_of("invalid_hello"@, "malformed HELLO body: "@ + text)
}

fn refuse_malformed(text: &str) -> (r: ErrorBody)
    ensures
        r@ == malformed_hello(text@),
{
    control_error("invalid_hello", String::from_str("malformed HELLO body: ").concat(text))
}

/// What is told of a module id that is reserved.
pub open spec fn reserved_refusal(rejection: ReservedHelloRejection, module_id: Seq<char>) -> ErrorView {
    error_of(
        "reserved_module"@,
        match rejection {
            ReservedHelloRejection::Exact { module_id } => "module_id '"@ + module_id@
                + "' is reserved; HELLO without a valid launch nonce is rejected"@,
            ReservedHelloRejection::Prefix { prefix, owner_module_id } => "module_id '"@ + module_id
                + "' matches reserved prefix '"@ + prefix@ + "' owned by '"@ + owner_module_id@
                + "'; HELLO without the owner launch nonce is rejected"@,
        },
    )
}

fn refuse_reserved(rejection: &ReservedHelloRejection, module_id: &str) -> (r: ErrorBody)
    ensures
        r@ == reserved_refusal(*rejection, module_id@),
{
    let message: String = match rejection {
        ReservedHelloRejection::Exact { module_id } => String::from_str("module_id '").concat(
            module_id.as_str(),
        ).concat("' is reserved; HELLO without a valid launch nonce is rejected"),
        ReservedHelloRejection::Prefix { prefix, owner_module_id } => String::from_str(
            "module_id '",
        ).concat(module_id).concat("' matches reserved prefix '").concat(prefix.as_str()).concat(
            "' owned by '",
        ).concat(owner_module_id.as_str()).concat(
            "'; HELLO without the owner launch nonce is rejected",
        ),
    };
    control_error("reserved_module", message)
}

/// What is told of a capability that is reserved for another module.
pub open spec fn reserved_capability_refusal(claim: ReservedCapability, module_id: Seq<char>) -> ErrorView {
    error_of(
        "reserved_capability"@,
        "capability '"@ + claim.capability@ + "' is reserved for module_id '"@
            + claim.bound_module@ + "'; claimant '"@ + module_id + "' was refused"@,
    )
}

/// The gates of a decoded HELLO: its two versions agree, it names a module, it
/// speaks the daemon's version, its id and its claims are free, and its
/// connection is not a client's.
pub open spec fn decoded_gate(
    hello: ModuleHello,
    reserved: Option<ReservedHelloRejection>,
    reserved_capability: Option<ReservedCapability>,
    has_client_routes: Result<bool, ForwardingError>,
) -> HelloGateView {
    let id = hello.manifest.module_id@;
    if hello.protocol_ver != hello.manifest.protocol_ver {
        HelloGateView::Refused(
            error_of(
                "invalid_manifest"@,
                "HELLO protocol_ver "@ + decimal(hello.protocol_ver as nat)
                    + " does not match manifest protocol_ver "@ + decimal(
                    hello.manifest.protocol_ver as nat,
                ),
            ),
        )
    } else if trimmed(id).len() == 0 {
        HelloGateView::Refused(
            error_of("invalid_manifest"@, "manifest module_id must not be empty"@),
        )
    } else if hello.protocol_ver != PROTOCOL_VERSION {
        HelloGateView::Refused(
            error_of("version_unsupported"@, version_refusal(hello.protocol_ver)),
        )
    } else if reserved is Some {
        HelloGateView::Refused(reserved_refusal(reserved->0, id))
    } else if reserved_capability is Some {
        HelloGateView::Refused(reserved_capability_refusal(reserved_capability->0, id))
    } else {
        match has_client_routes {
            Err(err) => HelloGateView::Fault(FaultView::Forwarding(err)),
            Ok(true) => HelloGateView::Refused(
                error_of(
                    "invalid_hello"@,
                    "connection has open client routes and cannot also register as a module"@,
                ),
            ),
            Ok(false) => HelloGateView::Register {
                manifest: hello.manifest@,
                negotiated_ver: PROTOCOL_VERSION,
                control_ops: effective_ops(
                    match hello.control_ops {
                        Some(ops) => Some(texts(ops@)),
                        None => None,
                    },
                ),
            },
        }
    }
}

/// The gates of a HELLO, given why its body is no JSON text, if it is none, and
/// whether its manifest has a provenance.
pub open spec fn hello_gates(
    not_json: Option<Seq<char>>,
    has_provenance: bool,
    facts: HelloFacts,
) -> HelloGateView {
    match not_json {
        Some(text) => HelloGateView::Refused(malformed_hello(text)),
        None => match facts.capability_grammar {
            Err(text) => HelloGateView::Refused(
                error_of("invalid_capability_grammar"@, text@),
            ),
            Ok(()) => match facts.self_signals {
                Err(text) => HelloGateView::Refused(error_of("invalid_manifest"@, text@)),
                Ok(()) => if has_provenance && facts.provenance is Err {
                    HelloGateView::Refused(
                        error_of(
                            "invalid_manifest"@,
                            "malformed manifest provenance: "@ + facts.provenance->Err_0@,
                        ),
                    )
                } else {
                    match facts.hello {
                        Err(text) => HelloGateView::Refused(malformed_hello(text@)),
                        Ok(hello) => decoded_gate(
                            hello,
                            facts.reserved,
                            facts.reserved_capability,
                            facts.has_client_routes,
                        ),
                    }
                },
            },
        },
    }
}

/// Takes a HELLO through its gates, given what its bytes say.
pub fn parsed_hello_gate(not_json: Option<String>, has_provenance: bool, facts: HelloFacts) -> (r:
    HelloGate)
    ensures
        r@ == hello_gates(
            match not_json {
                Some(text) => Some(text@),
                None => None,
            },
            has_provenance,
            facts,
        ),
{
    if let Some(text) = not_json {
        return HelloGate::Refused(refuse_malformed(text.as_str()));
    }
    if let Err(text) = facts.capability_grammar {
        return HelloGate::Refused(control_error("invalid_capability_grammar", text));
    }
    if let Err(text) = facts.self_signals {
        return HelloGate::Refused(control_error("invalid_manifest", text));
    }
    if has_provenance {
        if let Err(text) = facts.provenance {
            return HelloGate::Refused(
                control_error(
                    "invalid_manifest",
                    String::from_str("malformed manifest provenance: ").concat(text.as_str()),
                ),
            );
        }
    }
    let hello: ModuleHello = match facts.hello {
        Err(text) => {
            return HelloGate::Refused(refuse_malformed(text.as_str()));
        },
        Ok(hello) => hello,
    };
    if hello.protocol_ver != hello.manifest.protocol_ver {
        return HelloGate::Refused(
            control_error(
                "invalid_manifest",
                String::from_str("HELLO protocol_ver ").concat(
                    decimal_text(hello.protocol_ver as u64).as_str(),
                ).concat(" does not match manifest protocol_ver ").concat(
                    decimal_text(hello.manifest.protocol_ver as u64).as_str(),
                ),
            ),
        );
    }
    if trim(hello.manifest.module_id.as_str()).is_empty() {
        return HelloGate::Refused(
            control_error(
                "invalid_manifest",
                String::from_str("manifest module_id must not be empty"),
            ),
        );
    }
    let negotiated_ver: u8 = match negotiate_version(hello.protocol_ver) {
        Ok(negotiated_ver) => negotiated_ver,
        Err(message) => {
            return HelloGate::Refused(control_error("version_unsupported", message));
        },
    };
    if let Some(rejection) = &facts.reserved {
        return HelloGate::Refused(refuse_reserved(rejection, hello.manifest.module_id.as_str()));
    }
    if let Some(claim) = &facts.reserved_capability {
        return HelloGate::Refused(
            control_error(
                "reserved_capability",
                String::from_str("capability '").concat(claim.capability.as_str()).concat(
                    "' is reserved for module_id '",
                ).concat(claim.bound_module.as_str()).concat("'; claimant '").concat(
                    hello.manifest.module_id.as_str(),
                ).concat("' was refused"),
            ),
        );
    }
    match facts.has_client_routes {
        Err(err) => {
            return HelloGate::Fault(RouterError::Forwarding(err));
        },
        Ok(has_routes) => {
            if has_routes {
                return HelloGate::Refused(
                    control_error(
                        "invalid_hello",
                        String::from_str(
                            "connection has open client routes and cannot also register as a module",
                        ),
                    ),
                );
            }
        },
    }
    let control_ops: Vec<String> = effective_module_control_ops(hello.control_ops);
    HelloGate::Register { manifest: hello.manifest, negotiated_ver, control_ops }
}

/// Where a manifest's provenance stands in a HELLO.
pub const PROVENANCE_POINTER: &'static str = "/manifest/provenance";

/// Takes a HELLO through its gates.
pub fn hello_gate(body: &[u8], facts: HelloFacts) -> (r: HelloGate)
    ensures
        r@ == hello_gates(json_failure(body@), json_holds(body@, PROVENANCE_POINTER@), facts),
{
    parsed_hello_gate(json_error(body), json_has(body, PROVENANCE_POINTER), facts)
}

/// How entering the module in the registry can fail.
#[derive(Debug)]
pub enum RegistryRefusal {
    DuplicateModuleId { module_id: String },
    /// The id is no path component; with the text that says why.
    PathHazardModuleId { text: String },
    Other { text: String },
}

/// What is told of a module that the registry did not take.
pub open spec fn registry_answer(refusal: RegistryRefusal) -> ErrorView {
    match refusal {
        RegistryRefusal::DuplicateModuleId { module_id } => error_of(
            "duplicate_module_id"@,
            "module_id '"@ + module_id@ + "' is already registered; duplicate HELLO rejected"@,
        ),
        RegistryRefusal::PathHazardModuleId { text } => error_of("invalid_module_id"@, text@),
        RegistryRefusal::Other { text } => error_of("registry_error"@, text@),
    }
}

/// Refuses a module that the registry did not take.
pub fn hello_registry_refusal(refusal: RegistryRefusal) -> (r: ErrorBody)
    ensures
        r@ == registry_answer(refusal),
{
    match refusal {
        RegistryRefusal::DuplicateModuleId { module_id } => control_error(
            "duplicate_module_id",
            String::from_str("module_id '").concat(module_id.as_str()).concat(
                "' is already registered; duplicate HELLO rejected",
            ),
        ),
        RegistryRefusal::PathHazardModuleId { text } => control_error("invalid_module_id", text),
        RegistryRefusal::Other { text } => control_error("registry_error", text),
    }
}

/// What follows in a HELLO that has passed its gates.
#[derive(Debug)]
pub enum HelloNext {
    Refuse(ErrorBody),
    /// The connection is entered in the forwarding table.
    Connect,
    /// The registration is taken back.
    Unregister(ForwardingFailure),
    /// The module is registered, and is told so.
    Accept,
}

/// A [`HelloNext`] over characters.
#[verifier::ext_equal]
pub enum HelloNextView {
    Refuse(ErrorView),
    Connect,
    Unregister(ForwardingFailure),
    Accept,
}

impl View for HelloNext {
    type V = HelloNextView;

    open spec fn view(&self) -> HelloNextView {
        match *self {
            HelloNext::Refuse(e) => HelloNextView::Refuse(e@),
            HelloNext::Connect => HelloNextView::Connect,
            HelloNext::Unregister(failure) => HelloNextView::Unregister(failure),
            HelloNext::Accept => HelloNextView::Accept,
        }
    }
}

/// What follows the attempt to enter the module in the registry. A HELLO that came
/// over no connection of its own has no place in the forwarding table.
pub open spec fn after_registry(outcome: Result<(), RegistryRefusal>, has_sink: bool) -> HelloNextView {
    match outcome {
        Err(refusal) => HelloNextView::Refuse(registry_answer(refusal)),
        Ok(()) => if has_sink {
            HelloNextView::Connect
        } else {
            HelloNextView::Accept
        },
    }
}

/// Goes on after the attempt to enter the module in the registry.
pub fn hello_after_registry(outcome: Result<(), RegistryRefusal>, has_sink: bool) -> (r: HelloNext)
    ensures
        r@ == after_registry(outcome, has_sink),
{
    match outcome {
        Err(refusal) => HelloNext::Refuse(hello_registry_refusal(refusal)),
        Ok(()) => if has_sink {
            HelloNext::Connect
        } else {
            HelloNext::Accept
        },
    }
}

/// What follows the attempt to enter the connection in the forwarding table: where
/// that failed, the registration is taken back before anything is answered.
pub open spec fn after_forwarding(outcome: Result<(), ForwardingFailure>) -> HelloNextView {
    match outcome {
        Ok(()) => HelloNextView::Accept,
        Err(failure) => HelloNextView::Unregister(failure),
    }
}

/// Goes on after the attempt to enter the connection in the forwarding table.
pub fn hello_after_forwarding(outcome: Result<(), ForwardingFailure>) -> (r: HelloNext)
    ensures
        r@ == after_forwarding(outcome),
{
    match outcome {
        Ok(()) => HelloNext::Accept,
        Err(failure) => HelloNext::Unregister(failure),
    }
}

/// Everything that decides over a HELLO: its gates, the registry, whether it came
/// over a connection of its own, and the forwarding table.
pub struct HelloCourse {
    pub gate: HelloGateView,
    pub registry: Result<(), RegistryRefusal>,
    pub has_sink: bool,
    pub forwarding: Result<(), ForwardingFailure>,
}

/// A HELLO is accepted.
pub open spec fn accepts(course: HelloCourse) -> bool {
    course.gate is Register && match after_registry(course.registry, course.has_sink) {
        HelloNextView::Connect => after_forwarding(course.forwarding) is Accept,
        next => next is Accept,
    }
}

/// What is registered, each module id with its connection, once a connection's own
/// registrations are taken back.
pub open spec fn without_connection(registered: Map<Seq<char>, u64>, connection: u64) -> Map<
    Seq<char>,
    u64,
> {
    registered.remove_keys(
        Set::new(|id: Seq<char>| registered.dom().contains(id) && registered[id] == connection),
    )
}

/// What is registered after a HELLO over `connection` whose steps were taken. The
/// registry either enters the module or leaves all as it is.
pub open spec fn registered_after(
    registered: Map<Seq<char>, u64>,
    connection: u64,
    course: HelloCourse,
) -> Map<Seq<char>, u64> {
    match course.gate {
        HelloGateView::Register { manifest, .. } => {
            let entered = if course.registry is Ok {
                registered.insert(manifest.module_id, connection)
            } else {
                registered
            };
            match after_registry(course.registry, course.has_sink) {
                HelloNextView::Connect => match after_forwarding(course.forwarding) {
                    HelloNextView::Unregister(_) => without_connection(entered, connection),
                    _ => entered,
                },
                _ => entered,
            }
        },
        _ => registered,
    }
}

/// A HELLO that is refused, by whichever of its gates, by the registry or by the
/// forwarding table, leaves the registrations as they were, where the connection had
/// registered nothing before. One that is accepted adds its module and nothing else.
pub proof fn a_refused_hello_registers_nothing(
    registered: Map<Seq<char>, u64>,
    connection: u64,
    course: HelloCourse,
)
    requires
        forall|id: Seq<char>| #[trigger]
            registered.dom().contains(id) ==> registered[id] != connection,
        course.gate is Register && course.registry is Ok ==> !registered.dom().contains(
            course.gate->Register_manifest.module_id,
        ),
    ensures
        !accepts(course) ==> registered_after(registered, connection, course) == registered,
        accepts(course) ==> registered_after(registered, connection, course) == registered.insert(
            course.gate->Register_manifest.module_id,
            connection,
        ),
{
    if course.gate is Register {
        let entered = registered.insert(course.gate->Register_manifest.module_id, connection);
        assert(course.registry is Ok ==> without_connection(entered, connection) =~= registered);
    }
}

/// The end of a HELLO whose module the forwarding table did not take.
#[derive(Debug)]
pub struct HelloRollback {
    pub answer: ErrorBody,
    /// Waiters for the module's release are told.
    pub notify_release: bool,
}

/// Refuses a module that the forwarding table did not take and whose registration
/// has been taken back. `entries` is how many registry entries that removed, where
/// it succeeded.
pub fn hello_forwarding_refusal(failure: ForwardingFailure, entries: Option<usize>) -> (r:
    HelloRollback)
    ensures
        r.answer@ == error_of(forwarding_code(failure.error), failure.text@),
        r.notify_release == (entries matches Some(n) && n > 0),
{
    HelloRollback {
        answer: control_error(forwarding_error_code(&failure.error), failure.text),
        notify_release: match entries {
            Some(n) => n > 0,
            None => false,
        },
    }
}

/// The capabilities of the daemon itself.
pub open spec fn subc_capability_names() -> Seq<Seq<char>> {
    seq![
        "manifest_registration_v1"@,
        "channel_lifecycle_v1"@,
        "ping_pong_v1"@,
        "session_attach_v1"@,
        "admission_facts_relay_v1"@,
    ]
}

/// The capabilities of the daemon itself.
pub fn subc_capabilities() -> (r: Vec<String>)
    ensures
        texts(r@) == subc_capability_names(),
{
    let r: Vec<String> = vec![
        String::from_str("manifest_registration_v1"),
        String::from_str("channel_lifecycle_v1"),
        String::from_str("ping_pong_v1"),
        String::from_str("session_attach_v1"),
        String::from_str("admission_facts_relay_v1"),
    ];
    proof {
        assert(texts(r@) =~= subc_capability_names());
    }
    r
}

/// The answer to a HELLO that registered a module.
#[derive(Debug)]
pub struct ModuleHelloAck {
    pub negotiated_ver: u8,
    pub subc_ops: Vec<String>,
    pub subc_capabilities: Vec<String>,
    /// The module's store, where the daemon has a storage policy.
    pub storage: Option<StorageDescriptor>,
}

/// What follows a registration.
#[derive(Debug)]
pub struct HelloAccepted {
    pub ack: ModuleHelloAck,
    /// The lane on which the module's calls are delivered.
    pub concurrency: Concurrency,
    pub routable_provider: bool,
    /// A management surface runs on a lane that it never declared.
    pub concurrency_defaulted: bool,
    /// Live routes may have become forbidden.
    pub census: bool,
}

/// Answers a HELLO that registered a module.
pub fn hello_accepted(
    body: &[u8],
    manifest: &ModuleManifest,
    negotiated_ver: u8,
    storage: &Option<StorageConfig>,
) -> (r: HelloAccepted)
    ensures
        r.ack.negotiated_ver == negotiated_ver,
        texts(r.ack.subc_ops@) == subc_op_names() + module_to_subc_op_names(),
        texts(r.ack.subc_capabilities@) == subc_capability_names(),
        r.ack.storage is Some <==> *storage is Some,
        r.ack.storage matches Some(d) ==> d@ == store_of((*storage)->0, manifest@.module_id),
        r.concurrency@ == lane_of(manifest@.provides),
        r.routable_provider == exists|i: int|
            0 <= i < manifest@.provides.len() && routable(#[trigger] manifest@.provides[i]),
        r.concurrency_defaulted == lane_defaulted(body@, manifest@),
        r.census == census_due(None, manifest@.capabilities),
{
    HelloAccepted {
        ack: ModuleHelloAck {
            negotiated_ver,
            subc_ops: module_subc_ops(),
            subc_capabilities: subc_capabilities(),
            storage: match storage {
                Some(storage) => Some(storage.descriptor_for(manifest.module_id.as_str())),
                None => None,
            },
        },
        concurrency: manifest_concurrency(manifest),
        routable_provider: manifest_provides_routable_role(manifest),
        concurrency_defaulted: manifest_concurrency_was_defaulted(body, manifest),
        census: capability_census_trigger(None, manifest.capabilities.as_ref()),
    }
}

/// The array of a HELLO's roles.
pub const PROVIDES_POINTER: &'static str = "/manifest/provides";

/// The place of a field of the `i`th role in a HELLO.
pub open spec fn role_pointer(i: nat, field: Seq<char>) -> Seq<char> {
    PROVIDES_POINTER@ + "/"@ + decimal(i) + "/"@ + field
}

fn role_pointer_text(i: usize, field: &str) -> (r: String)
    ensures
        r@ == role_pointer(i as nat, field@),
{
    String::from_str(PROVIDES_POINTER).concat("/").concat(decimal_text(i as u64).as_str()).concat(
        "/",
    ).concat(field)
}

/// Whether a role as it stands in a HELLO is a management surface that declares no
/// lane.
pub open spec fn silent_surface(role: Option<Seq<char>>, has_concurrency: bool) -> bool {
    role == Some("management_surface"@) && !has_concurrency
}

/// Whether a role as it stands in a HELLO is a management surface that declares no
/// lane.
pub fn is_silent_surface(role: Option<&str>, has_concurrency: bool) -> (r: bool)
    ensures
        r == silent_surface(
            match role {
                Some(role) => Some(role@),
                None => None,
            },
            has_concurrency,
        ),
{
    match role {
        Some(role) => same(role, "management_surface") && !has_concurrency,
        None => false,
    }
}

/// Whether a manifest's management surface runs on a lane that it never declared:
/// the decoded manifest cannot tell, so the bytes of the HELLO are asked.
pub open spec fn lane_defaulted(body: Seq<u8>, manifest: ManifestView) -> bool {
    (exists|i: int|
        0 <= i < manifest.provides.len() && (#[trigger] manifest.provides[i]) is ManagementSurface)
        && (json_array_at(body, PROVIDES_POINTER@) matches Some(n) && exists|i: nat|
        i < n && #[trigger] silent_role(body, i))
}

/// Whether the `i`th role in a HELLO is a management surface that declares no
/// lane.
pub open spec fn silent_role(body: Seq<u8>, i: nat) -> bool {
    silent_surface(
        json_text_at(body, role_pointer(i, "role"@)),
        json_holds(body, role_pointer(i, "concurrency"@)),
    )
}

fn has_management_surface(manifest: &ModuleManifest) -> (r: bool)
    ensures
        r == exists|i: int|
            0 <= i < manifest@.provides.len() && (#[trigger] manifest@.provides[i])
                is ManagementSurface,
{
    let mut i: usize = 0;
    while i < manifest.provides.len()
        invariant
            i <= manifest.provides.len(),
            forall|j: int|
                0 <= j < i ==> !((#[trigger] manifest@.provides[j]) is ManagementSurface),
        decreases manifest.provides.len() - i,
    {
        if let ProviderRole::ManagementSurface { .. } = &manifest.provides[i] {
            proof {
                assert(manifest@.provides[i as int] is ManagementSurface);
            }
            return true;
        }
        i += 1;
    }
    false
}

/// Whether a manifest's management surface runs on a lane that it never declared.
#[verifier::loop_isolation(false)]
pub fn manifest_concurrency_was_defaulted(raw_hello: &[u8], manifest: &ModuleManifest) -> (r: bool)
    ensures
        r == lane_defaulted(raw_hello@, manifest@),
{
    if !has_management_surface(manifest) {
        return false;
    }
    let n: usize = match json_array_len(raw_hello, PROVIDES_POINTER) {
        Some(n) => n,
        None => {
            return false;
        },
    };
    let mut i: usize = 0;
    while i < n
        invariant
            i <= n,
            forall|j: nat| j < i ==> !#[trigger] silent_role(raw_hello@, j),
        decreases n - i,
    {
        let role: Option<String> = json_text(raw_hello, role_pointer_text(i, "role").as_str());
        let declared: bool = json_has(raw_hello, role_pointer_text(i, "concurrency").as_str());
        let silent: bool = match &role {
            Some(role) => is_silent_surface(Some(role.as_str()), declared),
            None => false,
        };
        if silent {
            proof {
                assert(silent_role(raw_hello@, i as nat));
            }
            return true;
        }
        i += 1;
    }
    false
}

/// A HELLO is registered only with the daemon's own version, by a module that
/// names itself, whose id and claims are free and whose connection serves no
/// client.
pub proof fn what_a_registered_hello_means(
    not_json: Option<Seq<char>>,
    has_provenance: bool,
    facts: HelloFacts,
)
    requires
        hello_gates(not_json, has_provenance, facts) is Register,
    ensures
        not_json is None,
        facts.hello matches Ok(hello) && {
            &&& hello.protocol_ver == PROTOCOL_VERSION
            &&& hello.manifest.protocol_ver == PROTOCOL_VERSION
            &&& trimmed(hello.manifest.module_id@).len() > 0
            &&& hello_gates(not_json, has_provenance, facts)->manifest == hello.manifest@
        },
        hello_gates(not_json, has_provenance, facts)->negotiated_ver == PROTOCOL_VERSION,
        facts.reserved is None,
        facts.reserved_capability is None,
        facts.has_client_routes == Ok::<bool, ForwardingError>(false),
{
}

} // verus!
