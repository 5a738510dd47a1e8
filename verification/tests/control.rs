use serde_json::Value;
use subc_daemon::bootstrap::CgroupPlacementConfig;
use subc_daemon::control::breaker::RouteBindBreakers;
use subc_daemon::control::catalog::{
    catalog_list, catalog_update_step, catalog_updated, server_describe, CatalogUpdateStep,
    CatalogUpdated, ListedModule,
};
use subc_daemon::control::census::{
    supervisor_routes, LiveRoute, ModuleRoutes, SupervisorRouteConsumer,
};
use subc_daemon::control::concurrency::RouteBindConcurrency;
use subc_daemon::control::deny::{
    denied_notice, denied_routes, enforce_capability_denies, CensusRoute, CensusTarget,
    RegisteredCapabilities,
};
use subc_daemon::control::dispatch::{
    cancel_answer, client_control_request_op, dispatch_control_frame, route_open_target,
    route_poll_answer, slow_dispatch_ms, status_update_step, ClientRequestKind, ControlFrameFacts,
    ControlStep, PollKind, RoutePollSnapshot, RouteStatus, StatusStep,
};
use subc_daemon::control::fault::{
    backend, forwarding_error_code, refuse_to_end_module_connection_for_a_client, ForwardingError,
    ForwardingFailure, RouterError,
};
use subc_daemon::control::guards::{
    ModuleControlRpcGuard, ModuleEndpointId, RouteBindReservationGuard,
};
use subc_daemon::control::handler::ControlHandler;
use subc_daemon::control::health_probe::{
    append_capability_problem_detail, health_probe_gate, settle_health_probe, ProbeAnswer,
    ProbeEnd, ProbeGate,
};
use subc_daemon::control::hello::{
    hello_accepted, hello_after_forwarding, hello_after_registry, hello_forwarding_refusal,
    hello_gate, hello_registry_refusal, manifest_concurrency_was_defaulted, HelloFacts, HelloGate,
    HelloNext, ModuleHello, RegistryRefusal, ReservedCapability, ReservedHelloRejection,
};
use subc_daemon::control::manifest::{
    capability_census_trigger, catalog_update_frozen_field_message, manifest_concurrency,
    manifest_provides_routable_role, provider_role_kind, provider_role_kind_set,
    target_has_required_role, CapabilityDeclarations, CapabilityNeed, CapabilityRequirement,
    Concurrency, ModuleManifest, ProviderRole, ProviderRoleKind, RouteTarget,
};
use subc_daemon::control::ops::{
    classify_client_body, classify_module_body, effective_module_control_ops,
    is_known_module_push_op, module_baseline_control_ops, module_registration_grants_op,
    module_subc_ops, subc_ops, ControlRequestBodyError, HEALTH_CHECK,
};
use subc_daemon::control::pushes::{
    counts_failed_client, crash_notice, goodbye_end, push_header, push_targets,
    route_goodbye_target, target_goodbye, undelivered_goodbye, undelivered_push, GoodbyeTarget,
    Recovery, RouteCloseReason, RouteRelease, UndeliveredGoodbye,
};
use subc_daemon::control::relay_response::{
    bind_settled, module_answer_step, observe_module_control_completion, BindCompletion,
    DecodedResponse, HealthReport, ModuleAnswerFacts, ModuleAnswerStep, ModuleControlResponse,
    ModuleControlRpcCompletion, ModuleControlRpcOutcome, RouteBindRelayOutcome,
};
use subc_daemon::control::route_open::{
    guard_module_control_op, route_bind, route_open_capacity_refusal, route_open_gate, route_open_principal,
    settle_relay, AdmissionFactsPolicy, BindIdentity, BreakerPolicy, ConsumerIdentity,
    OpenerRegistration, Principal, RefusalCounter, RelayAnswer, RelayEnd, RouteOpenFacts, RouteOpenGate, RouteOpenRequest, SupervisedStatus,
    TargetRegistration,
};
use subc_daemon::control::supervisor::{
    capability_requirement_statuses, need_text, read_all, reload_answer, restart_answer,
    set_enabled_answer, spawn_subscribe_answer, stderr_tail_answer, supervised_answer,
    supervised_gate, supervisor_entry, supervisor_health, supervisor_list, supervisor_provenance,
    CaptureState, HealthStatus, LastExit, ModuleDeclaredProvenance, ModuleStatus, ProvenanceReading, RequirementStatus,
    SpawnSubscribeRefusal, StderrCaptureState, StderrTailEntry, SuperviseFailure, TailEntry,
    TailSnapshot,
};
use subc_daemon::control::wire::{
    control_answer_header, control_flags, negotiate_version, pong, response_version, ErrorBody,
    ErrorDetail, FrameFlags, FrameHeader, FrameType, PROTOCOL_VERSION,
};
use subc_daemon::daemon_config::{ModuleProtocol, StorageConfig};
use subc_daemon::span::Span;

type Request = RouteOpenRequest<&'static str, Value>;
type Status = ModuleStatus<u8, u8, u8, u8>;

/// The codes that clients retry.
const CLIENT_RETRYABLE: &[&str] =
    &["unknown_module", "module_reloading", "target_unavailable", "module_timeout"];

fn text(value: &str) -> String {
    value.to_string()
}

fn texts(values: &[&str]) -> Vec<String> {
    values.iter().map(|value| value.to_string()).collect()
}

fn frame(ty: FrameType, corr: u64) -> FrameHeader {
    FrameHeader { ver: PROTOCOL_VERSION, ty, flags: control_flags(), channel: 0, epoch: 0, corr }
}

fn manifest(module_id: &str, protocol_ver: u8) -> ModuleManifest {
    ModuleManifest {
        module_id: text(module_id),
        module_version: text("0.1.0"),
        protocol_ver,
        provides: vec![ProviderRole::ToolProvider { concurrency: Concurrency::ModuleManaged }],
        capabilities: None,
    }
}

fn declarations(provides: &[&str], must_never_reach: &[&str]) -> CapabilityDeclarations {
    CapabilityDeclarations {
        provides: texts(provides),
        requires: Vec::new(),
        must_never_reach: texts(must_never_reach),
    }
}

fn hello(module_id: &str, protocol_ver: u8, control_ops: Option<Vec<String>>) -> HelloFacts {
    HelloFacts {
        capability_grammar: Ok(()),
        self_signals: Ok(()),
        provenance: Ok(()),
        hello: Ok(ModuleHello {
            manifest: manifest(module_id, protocol_ver),
            protocol_ver,
            control_ops,
            launch_nonce: None,
        }),
        reserved: None,
        reserved_capability: None,
        has_client_routes: Ok(false),
    }
}

const HELLO_BODY: &[u8] = br#"{"protocol_ver":2,"manifest":{"module_id":"aft"}}"#;

fn registered(facts: HelloFacts) -> (ModuleManifest, u8, Vec<String>) {
    match hello_gate(HELLO_BODY, facts) {
        HelloGate::Register { manifest, negotiated_ver, control_ops } => {
            (manifest, negotiated_ver, control_ops)
        }
        other => panic!("expected a registration, got {other:?}"),
    }
}

fn hello_refusal(facts: HelloFacts) -> ErrorBody {
    match hello_gate(HELLO_BODY, facts) {
        HelloGate::Refused(body) => body,
        other => panic!("expected a refusal, got {other:?}"),
    }
}

fn registration() -> TargetRegistration {
    TargetRegistration {
        ready: true,
        provides: manifest("m", PROTOCOL_VERSION).provides,
        capabilities: None,
        active: true,
    }
}

fn open_facts() -> RouteOpenFacts {
    RouteOpenFacts {
        registration: Ok(Some(registration())),
        supervised: Ok(None),
        removed_ago_ms: None,
        draining: Ok(false),
        process_live: None,
        live_connection: Ok(true),
        control_ops: Ok(Some(module_baseline_control_ops())),
        consumer_authorized: false,
        opener: Ok(None),
        project_root: Ok(text("/real/root")),
    }
}

fn request(module_id: &str, claimed: Option<(&str, &str)>, facts: Option<Value>) -> Request {
    RouteOpenRequest {
        target: RouteTarget::ToolProvider { module_id: text(module_id) },
        identity: BindIdentity { project_root: text("/root/"), session: "session" },
        consumer_identity: claimed.map(|(id, nonce)| ConsumerIdentity {
            module_id: text(id),
            launch_nonce: text(nonce),
        }),
        consumer_capabilities: None,
        admission_facts: facts,
    }
}

fn no_policy() -> AdmissionFactsPolicy {
    AdmissionFactsPolicy { carrier_module_id: None, targets: None }
}

fn fed_policy() -> AdmissionFactsPolicy {
    AdmissionFactsPolicy {
        carrier_module_id: Some(text("fed")),
        targets: Some(texts(&["target"])),
    }
}

fn refusal(
    request: &Request,
    facts: RouteOpenFacts,
    policy: &AdmissionFactsPolicy,
) -> (ErrorBody, RefusalCounter) {
    match route_open_gate(request, facts, policy, 7) {
        RouteOpenGate::Refused(refusal) => (refusal.body, refusal.counter),
        other => panic!("expected a refusal, got {other:?}"),
    }
}

fn passed(request: &Request, facts: RouteOpenFacts, policy: &AdmissionFactsPolicy) -> Principal {
    match route_open_gate(request, facts, policy, 7) {
        RouteOpenGate::Passed { principal, project_root } => {
            assert_eq!(project_root, "/real/root");
            principal
        }
        other => panic!("expected a pass, got {other:?}"),
    }
}

fn absent(supervised: Option<SupervisedStatus>) -> RouteOpenFacts {
    let mut facts = open_facts();
    facts.registration = Ok(None);
    facts.supervised = Ok(supervised);
    facts
}

fn supervised(state: &str, warming: bool) -> SupervisedStatus {
    SupervisedStatus {
        state: text(state),
        enabled: true,
        live: false,
        protocol: ModuleProtocol::Subc,
        warming,
    }
}

fn message_of(fault: &RouterError) -> String {
    match fault {
        RouterError::Backend { message, .. } => message.clone(),
        other => panic!("expected a backend fault, got {other:?}"),
    }
}

#[test]
fn retryability_of_forwarding_codes_matches_the_failure() {
    let transient = [
        ForwardingError::NoModuleConnection,
        ForwardingError::ModuleReloading { module_id: text("m") },
        ForwardingError::StaleModuleEndpoint,
        ForwardingError::UnknownReservation { client_channel: 1, module_channel: 1 },
        ForwardingError::ConnectionClosing { connection_id: 1 },
        ForwardingError::ClientEgressClosed { connection_id: 1 },
    ];
    for err in transient {
        let code = forwarding_error_code(&err);
        assert!(CLIENT_RETRYABLE.contains(&code), "{err:?} {code:?}");
    }
    let permanent = [
        ForwardingError::ClientRouteChannelExhausted { connection_id: 1 },
        ForwardingError::ModuleRouteChannelExhausted {
            endpoint: ModuleEndpointId { connection_id: 1, generation: 1 },
        },
        ForwardingError::RelayCorrelationExhausted,
        ForwardingError::RouteOpenBuild(text("x")),
        ForwardingError::Poisoned,
    ];
    for err in permanent {
        let code = forwarding_error_code(&err);
        assert!(!CLIENT_RETRYABLE.contains(&code), "{err:?} {code:?}");
    }
}

#[test]
fn an_unattested_caller_is_never_stamped_as_a_supervised_module() {
    let stamped = route_open_principal(&None, false).expect("no claim, no refusal");
    assert!(matches!(stamped, Principal::Direct));
    let claim = Some(ConsumerIdentity {
        module_id: text("aft"),
        launch_nonce: text("not-a-real-nonce"),
    });
    let refusal = route_open_principal(&claim, false)
        .expect_err("an unmatched launch nonce must not yield a principal");
    assert_eq!(refusal.body.code, "bad_consumer_identity");
}

#[test]
fn a_principal_has_a_label() {
    assert_eq!(Principal::Direct.label(), "direct");
    assert_eq!(Principal::Reserved { module_id: text("fed") }.label(), "reserved:fed");
    assert_eq!(Principal::Unverified.label(), "Unverified");
}

#[test]
fn hello_registers_manifest_and_returns_ack() {
    let (manifest, negotiated_ver, control_ops) =
        registered(hello("aft", PROTOCOL_VERSION, None));
    let accepted = hello_accepted(HELLO_BODY, &manifest, negotiated_ver, &None);
    let header = control_answer_header(&frame(FrameType::Hello, 7), FrameType::HelloAck);
    assert_eq!(header.ty, FrameType::HelloAck);
    assert_eq!(header.channel, 0);
    assert_eq!(header.corr, 7);
    assert_eq!(accepted.ack.negotiated_ver, PROTOCOL_VERSION);
    assert!(accepted.ack.subc_capabilities.contains(&text("manifest_registration_v1")));
    for op in [
        "supervisor.list",
        "supervisor.restart",
        "supervisor.set_enabled",
        "catalog.update",
    ] {
        assert!(accepted.ack.subc_ops.contains(&text(op)), "{op}");
    }
    assert_eq!(control_ops, module_baseline_control_ops());
    assert!(accepted.routable_provider);
    assert!(!accepted.concurrency_defaulted);
    assert!(!accepted.census);
}

#[test]
fn capability_grammar_refusals_name_the_field_and_leave_no_catalog_entry() {
    for (field, value) in [
        ("capabilities.provides[0]", "credentials-Provider/v1"),
        ("capabilities.requires[0].need", "deferred"),
        ("runtime_computed[0]", "/capabilities"),
    ] {
        let mut facts = hello("capability-grammar-test", PROTOCOL_VERSION, None);
        facts.capability_grammar = Err(format!("{field} holds {value}"));
        let error = hello_refusal(facts);
        assert_eq!(error.code, "invalid_capability_grammar");
        assert!(error.message.contains(field));
        assert!(error.message.contains(value));
    }
}

#[test]
fn a_manifest_is_held_to_its_own_words() {
    let mut facts = hello("aft", PROTOCOL_VERSION, None);
    facts.self_signals = Err(text("bad signals"));
    let error = hello_refusal(facts);
    assert_eq!((error.code.as_str(), error.message.as_str()), ("invalid_manifest", "bad signals"));

    let with_provenance = br#"{"manifest":{"provenance":7}}"#;
    let mut facts = hello("aft", PROTOCOL_VERSION, None);
    facts.provenance = Err(text("not a map"));
    match hello_gate(with_provenance, facts) {
        HelloGate::Refused(error) => {
            assert_eq!(error.code, "invalid_manifest");
            assert_eq!(error.message, "malformed manifest provenance: not a map");
        }
        other => panic!("{other:?}"),
    }
    let mut facts = hello("aft", PROTOCOL_VERSION, None);
    facts.provenance = Err(text("not a map"));
    registered(facts);

    let mut facts = hello("aft", PROTOCOL_VERSION, None);
    facts.hello = Ok(ModuleHello {
        manifest: manifest("aft", PROTOCOL_VERSION),
        protocol_ver: PROTOCOL_VERSION + 1,
        control_ops: None,
        launch_nonce: None,
    });
    assert_eq!(
        hello_refusal(facts).message,
        "HELLO protocol_ver 3 does not match manifest protocol_ver 2"
    );
    assert_eq!(
        hello_refusal(hello("", PROTOCOL_VERSION, None)).message,
        "manifest module_id must not be empty"
    );
}

#[test]
fn a_hello_that_cannot_be_looked_up_is_a_fault() {
    let mut facts = hello("aft", PROTOCOL_VERSION, None);
    facts.has_client_routes = Err(ForwardingError::Poisoned);
    assert!(matches!(
        hello_gate(HELLO_BODY, facts),
        HelloGate::Fault(RouterError::Forwarding(ForwardingError::Poisoned))
    ));
}

fn listed(module_id: &str, capabilities: Option<Value>) -> ListedModule<&'static str, Option<Value>, u8> {
    ListedModule {
        module_id: text(module_id),
        module_version: text("0.1.0"),
        ready: true,
        roles: "roles, verbatim",
        control_ops: module_baseline_control_ops(),
        capabilities,
        self_signals: 9,
    }
}

#[test]
fn legal_runtime_pointer_and_capabilities_are_mirrored_in_catalog_list() {
    let capabilities: Value = serde_json::from_str(
        r#"{ "provides": ["credentials-provider/v1"],
             "requires": [{ "capability": "context-transform/v1", "need": "optional" }],
             "must_never_reach": ["federation-transport/v1"] }"#,
    )
    .unwrap();
    let list = catalog_list(
        Ok((1, vec![listed("capability-grammar-test", Some(capabilities.clone()))])),
        None,
        100,
    )
    .expect("catalog list succeeds");
    assert_eq!(list.modules.len(), 1);
    assert_eq!(list.modules[0].capabilities, Some(capabilities));
    assert_eq!(list.modules[0].module_version.as_deref(), Some("0.1.0"));
    assert_eq!(list.generation, 1);
    assert_eq!(list.subc_ops, subc_ops());
}

#[test]
fn catalog_list_mirrors_management_operation_description() {
    let list = catalog_list(Ok((1, vec![listed("described-management", None)])), None, 100)
        .expect("catalog list succeeds");
    assert_eq!(list.modules[0].roles, "roles, verbatim");
    assert_eq!(list.modules[0].self_signals, 9);
}

#[test]
fn catalog_list_omits_capabilities_for_legacy_manifest() {
    let list = catalog_list(Ok((1, vec![listed("legacy-capability-manifest", None)])), None, 102)
        .expect("catalog list succeeds");
    assert!(list.modules[0].capabilities.is_none());
}

#[test]
fn a_listed_catalog_can_be_narrowed_to_one_module() {
    let two = || Ok((4, vec![listed("a", None), listed("b", None)]));
    let list = catalog_list(two(), Some("b"), 1).unwrap();
    assert_eq!(list.modules.len(), 1);
    assert_eq!(list.modules[0].module_id, "b");
    assert!(catalog_list(two(), Some("c"), 1).unwrap().modules.is_empty());
    assert_eq!(catalog_list(two(), None, 1).unwrap().modules.len(), 2);
    let fault =
        catalog_list::<u8, u8, u8>(Err(text("poisoned")), None, 1).expect_err("registry error");
    assert_eq!(message_of(&fault), "registry error: poisoned");
}

#[test]
fn reserved_capability_refusal_mutation_proof_leaves_no_catalog_entry() {
    let mut facts = hello("squatter", PROTOCOL_VERSION, None);
    facts.reserved_capability = Some(ReservedCapability {
        capability: text("credentials-provider/v1"),
        bound_module: text("vault"),
    });
    let error = hello_refusal(facts);
    assert_eq!(error.code, "reserved_capability");
    assert_eq!(
        error.message,
        "capability 'credentials-provider/v1' is reserved for module_id 'vault'; claimant \
         'squatter' was refused"
    );
}

#[test]
fn server_describe_surfaces_required_capability_verdict_fields() {
    let requirements = capability_requirement_statuses(vec![RequirementStatus {
        consumer: text("consumer"),
        capability: text("credentials-provider/v1"),
        need: CapabilityNeed::Required,
        verdict: text("never_provided"),
        episode_seq: 1,
        config_satisfiable: false,
        runtime_available: false,
        detail: text("no module provides credentials-provider/v1"),
    }]);
    let described = server_describe(
        &ControlHandler::new().subc_capabilities,
        3,
        "counters",
        Ok((4, 5)),
        None,
        "unavailable",
        "digest",
        requirements,
    );
    let requirement = &described.capability_requirements[0];
    assert_eq!(requirement.consumer, "consumer");
    assert_eq!(requirement.verdict, "never_provided");
    assert_eq!(requirement.episode_seq, 1);
    assert!(!requirement.config_satisfiable);
    assert!(!requirement.runtime_available);
    assert_eq!(requirement.need, "required");
    assert!(requirement.detail.contains("credentials-provider/v1"));
    assert_eq!(described.protocol_ver, PROTOCOL_VERSION);
    assert_eq!(described.subc_ops, subc_ops());
    assert_eq!(described.connected_clients, 3);
    assert_eq!(described.route_concentration, Some((4, 5)));
    assert_eq!(described.build_lock_digest, "digest");
    assert!(described.capabilities.contains(&text("admission_facts_relay_v1")));
    let unreadable =
        server_describe::<u8, u8>(&Vec::new(), 0, 0, Err(text("poisoned")), None, "", "", Vec::new());
    assert_eq!(unreadable.route_concentration, None);
}

#[test]
fn hello_ack_omits_storage_when_no_storage_config() {
    let (manifest, ver, _) = registered(hello("aft", PROTOCOL_VERSION, None));
    assert!(hello_accepted(HELLO_BODY, &manifest, ver, &None).ack.storage.is_none());
}

#[test]
fn hello_ack_delivers_resolved_storage_descriptor_per_module() {
    let (manifest, ver, _) = registered(hello("alfonso-routing", PROTOCOL_VERSION, None));
    let storage = Some(StorageConfig::Sqlite { data_home: text("/data") });
    let descriptor =
        hello_accepted(HELLO_BODY, &manifest, ver, &storage).ack.storage.expect("descriptor");
    assert_eq!(descriptor.module_id, "alfonso-routing");
    assert_eq!(descriptor.storage_namespace, "default");
    assert_eq!(descriptor.isolation_kind, "module");
    assert_eq!(descriptor.backend, "sqlite");
    assert_eq!(descriptor.path, "/data/cortexkit/alfonso-routing/store.db");
}

#[test]
fn hello_control_ops_none_is_baseline_and_guard_rejects_synthetic_gated_op() {
    let (_, _, ops) = registered(hello("aft", PROTOCOL_VERSION, None));
    assert_eq!(ops, module_baseline_control_ops());
    assert!(module_registration_grants_op(&ops, "route.bind"));
    assert!(!module_registration_grants_op(&ops, "test.synthetic"));
    let ops = Some(ops);
    assert!(guard_module_control_op(&ops, "aft", "route.bind").is_none());
    let refusal = guard_module_control_op(&ops, "aft", "test.synthetic").expect("rejected");
    assert_eq!(refusal.body.code, "op_not_allowed");
    assert_eq!(
        refusal.body.message,
        "module_id 'aft' did not grant control op 'test.synthetic'"
    );
    assert!(guard_module_control_op(&None, "aft", "route.bind").is_some());
}

#[test]
fn hello_control_ops_some_adds_optional_grants() {
    let (_, _, ops) = registered(hello(
        "aft",
        PROTOCOL_VERSION,
        Some(texts(&["future.synthetic", "route.bind"])),
    ));
    assert_eq!(ops, texts(&["route.bind", "route.status", "future.synthetic"]));
    assert!(guard_module_control_op(&Some(ops), "aft", "future.synthetic").is_none());
}

#[test]
fn health_probe_refuses_unadvertised_module_without_sending_frame() {
    match health_probe_gate(Ok(Some(effective_module_control_ops(None))), "aft", 77) {
        ProbeGate::Refused(error) => assert_eq!(error.code, "health_not_advertised"),
        other => panic!("{other:?}"),
    }
    assert!(matches!(
        health_probe_gate(Ok(Some(texts(&[HEALTH_CHECK]))), "aft", 77),
        ProbeGate::Send
    ));
    match health_probe_gate(Ok(None), "aft", 77) {
        ProbeGate::Refused(error) => assert_eq!(error.code, "unknown_module"),
        other => panic!("{other:?}"),
    }
    match health_probe_gate(Err(text("poisoned")), "aft", 77) {
        ProbeGate::Fault(fault) => assert!(message_of(&fault).contains("poisoned")),
        other => panic!("{other:?}"),
    }
}

fn health_facts(pending: Option<&str>) -> ModuleAnswerFacts<&'static str, u8> {
    ModuleAnswerFacts {
        op: Ok(text("health.check")),
        response: Ok(DecodedResponse {
            response: ModuleControlResponse::HealthCheck(HealthReport {
                status: "degraded",
                detail: Some(text("warming")),
                metrics: Some(3),
            }),
            rendered: text("HealthCheck"),
        }),
        error: Err(text("not an error")),
        pending_op: Ok(pending.map(str::to_string)),
    }
}

fn bind_facts() -> ModuleAnswerFacts<&'static str, u8> {
    ModuleAnswerFacts {
        op: Ok(text("route.bind")),
        response: Ok(DecodedResponse {
            response: ModuleControlResponse::RouteBindAck,
            rendered: text("RouteBindAck"),
        }),
        error: Err(text("not an error")),
        pending_op: Ok(None),
    }
}

#[test]
fn health_probe_demuxes_while_route_bind_relay_is_in_flight() {
    let report = match module_answer_step(FrameType::Response, health_facts(None)) {
        ModuleAnswerStep::Rpc { op, outcome: ModuleControlRpcOutcome::Response(response) } => {
            assert_eq!(op.as_deref(), Some("health.check"));
            response
        }
        _ => panic!("a health answer must settle the probe"),
    };
    let settled = settle_health_probe(
        ProbeEnd::Response(report),
        text("aft"),
        None,
        &Span::from_secs(5),
        101,
    );
    match settled.answer {
        ProbeAnswer::Report { module_id, report } => {
            assert_eq!(module_id, "aft");
            assert_eq!(report.status, "degraded");
            assert_eq!(report.detail.as_deref(), Some("warming"));
            assert_eq!(report.metrics, Some(3));
        }
        other => panic!("{other:?}"),
    }
    assert!(matches!(
        module_answer_step(FrameType::Response, bind_facts()),
        ModuleAnswerStep::Bind { outcome: RouteBindRelayOutcome::Accepted, complaint: None }
    ));
}

#[test]
fn late_bind_ack_for_a_closing_client_keeps_the_module_connection_serving() {
    let settled = bind_settled(
        30,
        Err(ForwardingError::ConnectionClosing { connection_id: 31 }),
        None,
    )
    .expect("one client's closing connection must not end the module's");
    assert!(settled.answer.is_none());
    let settled = bind_settled(30, Ok(BindCompletion { settled: true, abandoned: true }), None)
        .expect("an abandoned bind is no fault");
    assert!(settled.goodbye);
    let settled = bind_settled(30, Ok(BindCompletion { settled: true, abandoned: false }), None)
        .expect("a settled bind is no fault");
    assert!(!settled.goodbye);
}

#[test]
fn only_the_modules_own_closing_connection_ends_the_module_loop() {
    refuse_to_end_module_connection_for_a_client(
        30,
        ForwardingError::ConnectionClosing { connection_id: 31 },
    )
    .expect("a closing client must never end the module connection");
    assert!(matches!(
        refuse_to_end_module_connection_for_a_client(
            30,
            ForwardingError::ConnectionClosing { connection_id: 30 },
        ),
        Err(RouterError::Forwarding(ForwardingError::ConnectionClosing { connection_id: 30 }))
    ));
    assert!(matches!(
        refuse_to_end_module_connection_for_a_client(30, ForwardingError::Poisoned),
        Err(RouterError::Forwarding(ForwardingError::Poisoned))
    ));
    assert!(matches!(
        refuse_to_end_module_connection_for_a_client(30, ForwardingError::StaleModuleEndpoint),
        Err(RouterError::Forwarding(ForwardingError::StaleModuleEndpoint))
    ));
}

#[test]
fn route_open_refuses_consumer_identity_that_fails_spawn_attestation() {
    for claim in [("fed", "not-the-real-nonce"), ("never-spawned", "any-nonce")] {
        let (error, counter) =
            refusal(&request("target", Some(claim), None), open_facts(), &no_policy());
        assert_eq!(error.code, "bad_consumer_identity");
        assert_eq!(counter, RefusalCounter::Code);
    }
}

fn attested() -> RouteOpenFacts {
    let mut facts = open_facts();
    facts.consumer_authorized = true;
    facts
}

#[test]
fn route_open_stamps_reserved_for_a_correctly_attested_consumer() {
    let open = request("target", Some(("fed", "fed-nonce")), None);
    let principal = passed(&open, attested(), &no_policy());
    let bind = route_bind(open, principal, text("/real/root"), 8, 9);
    assert!(matches!(&bind.principal, Principal::Reserved { module_id } if module_id == "fed"));
    assert_eq!((bind.route_channel, bind.epoch), (8, 9));
    assert_eq!(bind.identity.project_root, "/real/root");
    assert_eq!(bind.identity.session, "session");
}

#[test]
fn supervisor_routes_serializes_live_draining_bindings_from_the_real_handler() {
    let live = |principal, connection_id, bound_at, now| LiveRoute {
        principal,
        connection_id,
        bound_at,
        now,
        draining: true,
        drain_reason: Some("reload"),
    };
    let modules = supervisor_routes(Ok(vec![ModuleRoutes {
        module_id: text("target"),
        routes: vec![
            live(Principal::Direct, 102, 5_000_000, 12_999_999),
            live(Principal::Reserved { module_id: text("fed") }, 103, 9, 0),
        ],
    }]))
    .unwrap();
    assert_eq!(modules[0].module_id, "target");
    let routes = &modules[0].routes;
    assert_eq!(routes.len(), 2);
    assert!(routes.iter().all(|route| route.draining));
    assert!(routes.iter().all(|route| route.drain_reason == Some("reload")));
    assert!(matches!(routes[0].consumer, SupervisorRouteConsumer::Direct { connection_id: 102 }));
    assert_eq!(routes[0].age_ms, 7);
    assert!(matches!(
        &routes[1].consumer,
        SupervisorRouteConsumer::Reserved { module_id } if module_id == "fed"
    ));
    assert_eq!(routes[1].age_ms, 0);
    assert!(matches!(
        supervisor_routes::<u8>(Err(ForwardingError::Poisoned)),
        Err(RouterError::Forwarding(ForwardingError::Poisoned))
    ));
}

#[test]
fn admission_facts_relay_carries_vendored_packages_verbatim() {
    let package: Value = serde_json::from_str(
        r#"{ "schema": 1, "verified_class": "member", "org": "01H", "extra": { "unknown": [1] } }"#,
    )
    .unwrap();
    let open = request("target", Some(("fed", "fed-nonce")), Some(package.clone()));
    let principal = passed(&open, attested(), &fed_policy());
    let bind = route_bind(open, principal, text("/p"), 1, 1);
    assert_eq!(bind.admission_facts, Some(package));
}

#[test]
fn admission_facts_gate_checks_carrier_target_and_precedence() {
    let facts: Value = serde_json::from_str(r#"{"x": 1}"#).unwrap();
    let policy = fed_policy();
    passed(
        &request("target", Some(("fed", "fed-nonce")), Some(facts.clone())),
        attested(),
        &policy,
    );
    let (direct, _) = refusal(&request("target", None, Some(facts.clone())), open_facts(), &policy);
    assert_eq!(direct.code, "admission_facts_not_permitted");
    let (different_reserved, _) = refusal(
        &request("target", Some(("other", "other-nonce")), Some(facts.clone())),
        attested(),
        &policy,
    );
    assert_eq!(different_reserved.code, "admission_facts_not_permitted");
    let (other_target, _) = refusal(
        &request("other", Some(("fed", "fed-nonce")), Some(facts.clone())),
        attested(),
        &policy,
    );
    assert_eq!(other_target.code, "admission_facts_target_not_allowed");
    let (nonexistent, _) = refusal(&request("missing", None, Some(facts)), absent(None), &policy);
    assert_eq!(nonexistent.code, "unknown_module");
    assert!(ControlHandler::new()
        .subc_capabilities
        .contains(&text("admission_facts_relay_v1")));
}

#[test]
fn admission_facts_without_configured_carrier_are_rejected() {
    let facts: Value = serde_json::from_str(r#"{"x": 1}"#).unwrap();
    let (error, _) = refusal(&request("target", None, Some(facts)), open_facts(), &no_policy());
    assert_eq!(error.code, "admission_facts_not_permitted");
}

#[test]
fn route_open_relays_consumer_capabilities_verbatim() {
    let mut open = request("aft", None, None);
    open.consumer_capabilities = Some(texts(&["elicitation", "roots"]));
    let principal = passed(&open, open_facts(), &no_policy());
    let bind = route_bind(open, principal, text("/p"), 1, 1);
    assert_eq!(bind.consumer_capabilities, Some(texts(&["elicitation", "roots"])));
}

#[test]
fn route_open_without_consumer_capabilities_relays_none() {
    let open = request("aft", None, None);
    let principal = passed(&open, open_facts(), &no_policy());
    assert!(matches!(principal, Principal::Direct));
    let bind = route_bind(open, principal, text("/p"), 1, 1);
    assert_eq!(bind.consumer_capabilities, None);
}

#[test]
fn supervision_only_module_health_probe_does_not_enable_route_open_and_cleans_up() {
    let mut facts = open_facts();
    facts.registration =
        Ok(Some(TargetRegistration { provides: Vec::new(), ..registration() }));
    let (error, _) = refusal(&request("mcp", None, None), facts, &no_policy());
    assert_eq!(error.code, "target_unavailable");
    assert!(error.message.contains("does not provide the requested target"));

    let (_, _, ops) =
        registered(hello("mcp", PROTOCOL_VERSION, Some(texts(&[HEALTH_CHECK]))));
    assert!(matches!(health_probe_gate(Ok(Some(ops)), "mcp", 302), ProbeGate::Send));
    let settled = settle_health_probe::<u8, u8>(
        ProbeEnd::BeginFailed(ForwardingFailure {
            error: ForwardingError::NoModuleConnection,
            text: text("no module connection is available"),
        }),
        text("mcp"),
        None,
        &Span::from_secs(5),
        303,
    );
    match settled.answer {
        ProbeAnswer::Error(error) => {
            assert_eq!(error.code, "target_unavailable");
            assert!(error.message.contains("no module connection"));
        }
        other => panic!("{other:?}"),
    }
}

#[test]
fn route_open_classifies_unregistered_running_supervised_module_as_warming() {
    let (error, counter) = refusal(
        &request("warming", None, None),
        absent(Some(supervised("running", true))),
        &no_policy(),
    );
    assert_eq!(error.code, "module_warming");
    assert!(error.message.contains("state=running, enabled=true, live=false"));
    assert_eq!(counter, RefusalCounter::Code);
}

#[test]
fn route_open_supervised_absence_emits_refusal_fields_and_counts_code() {
    let (error, counter) = refusal(
        &request("warming", None, None),
        absent(Some(supervised("running", true))),
        &no_policy(),
    );
    assert_eq!(
        error.message,
        "module_id 'warming' is supervised but not available (state=running, enabled=true, \
         live=false)"
    );
    assert_eq!(counter, RefusalCounter::Code);
}

#[test]
fn route_open_module_rejection_uses_daemon_counter_key() {
    let hostile_code = "\u{1b}]52;c;AAAA\u{07}";
    let facts: ModuleAnswerFacts<u8, u8> = ModuleAnswerFacts {
        op: Err(text("no op")),
        response: Err(text("no response")),
        error: Ok(ErrorBody {
            code: text(hostile_code),
            message: text("module refused route.bind"),
            detail: None,
        }),
        pending_op: Ok(None),
    };
    match module_answer_step(FrameType::Error, facts) {
        ModuleAnswerStep::Bind { outcome: RouteBindRelayOutcome::Rejected(body), complaint } => {
            assert!(complaint.is_none());
            let mut concurrency = RouteBindConcurrency::new();
            let mut breakers = RouteBindBreakers::new();
            assert!(concurrency.try_admit("aft", 1).is_ok());
            let settled = settle_relay(
                &mut concurrency,
                &mut breakers,
                "aft",
                RelayEnd::Rejected(body),
                &BreakerPolicy { threshold: 3, cooldown: Span::from_secs(20) },
                &Span::from_secs(12),
                396,
                0,
            );
            match settled.answer {
                RelayAnswer::Refused(refusal) => {
                    assert_eq!(refusal.body.code, hostile_code);
                    assert_eq!(refusal.counter, RefusalCounter::ModuleRejected);
                }
                other => panic!("{other:?}"),
            }
        }
        _ => panic!("a refused bind must be rejected"),
    }
}

#[test]
fn route_open_keeps_failed_unregistered_supervised_module_unavailable() {
    let (error, _) = refusal(
        &request("failed", None, None),
        absent(Some(supervised("failed", false))),
        &no_policy(),
    );
    assert_eq!(error.code, "target_unavailable");
    assert!(error.message.contains("state=failed, enabled=true, live=false"));
}

#[test]
fn route_open_role_mismatch_remains_target_unavailable() {
    let mut facts = open_facts();
    facts.registration = Ok(Some(TargetRegistration {
        provides: vec![ProviderRole::PipelineStage],
        ..registration()
    }));
    let (error, _) = refusal(&request("health-only", None, None), facts, &no_policy());
    assert_eq!(error.code, "target_unavailable");
    assert!(error.message.contains("does not provide the requested target"));
}

#[test]
fn route_open_inactive_registration_remains_target_unavailable() {
    let mut facts = open_facts();
    facts.registration = Ok(Some(TargetRegistration { active: false, ..registration() }));
    let (error, _) = refusal(&request("inactive", None, None), facts, &no_policy());
    assert_eq!(error.code, "target_unavailable");
    assert!(error.message.contains("is not active"));
}

#[test]
fn every_gate_of_an_open_says_why() {
    let open = request("m", None, None);
    let code = |change: &dyn Fn(&mut RouteOpenFacts)| {
        let mut facts = open_facts();
        change(&mut facts);
        let (error, _) = refusal(&open, facts, &no_policy());
        (error.code, error.message)
    };
    assert_eq!(
        code(&|f| f.draining = Ok(true)),
        (text("module_reloading"), text("module_id 'm' is reloading"))
    );
    assert_eq!(
        code(&|f| f.process_live = Some(false)),
        (text("target_unavailable"), text("module_id 'm' is not live"))
    );
    assert_eq!(
        code(&|f| f.live_connection = Ok(false)),
        (text("target_unavailable"), text("module_id 'm' has no live forwarding connection"))
    );
    assert_eq!(
        code(&|f| f.project_root = Err(text("no such directory"))),
        (text("invalid_project_root"), text("no such directory"))
    );
    assert_eq!(
        code(&|f| {
            f.registration = Ok(None);
            f.removed_ago_ms = Some(12);
        }),
        (text("module_removed"), text("module_id 'm' was removed 12 ms ago"))
    );
    let mut silent = supervised("running", true);
    silent.protocol = ModuleProtocol::NoProtocol;
    let (error, _) = refusal(&open, absent(Some(silent)), &no_policy());
    assert_eq!(error.code, "module_no_protocol");

    let mut facts = open_facts();
    facts.registration = Ok(Some(TargetRegistration { ready: false, ..registration() }));
    let (error, counter) = refusal(&open, facts, &no_policy());
    assert_eq!(error.code, "module_warming");
    assert_eq!(counter, RefusalCounter::DeclaredNotReady);
    assert!(matches!(
        error.detail,
        Some(ErrorDetail::Field { name, value }) if name == "reason" && value == "declared_not_ready"
    ));

    let mut facts = open_facts();
    facts.draining = Err(ForwardingError::Poisoned);
    assert!(matches!(
        route_open_gate(&open, facts, &no_policy(), 7),
        RouteOpenGate::Fault(RouterError::Forwarding(ForwardingError::Poisoned))
    ));
    let full = route_open_capacity_refusal(32);
    assert_eq!(
        full.body.message,
        "connection already has 32 route.open binds in flight; retry after one settles"
    );
}

#[test]
fn late_health_reply_is_recorded_through_the_module_response_path() {
    let observed =
        observe_module_control_completion(ModuleControlRpcCompletion::LateHealthAnswer {
            module_id: text("late-health-response"),
            latency: Span::from_millis(80),
        });
    assert!(observed.known);
    let late = observed.late.expect("a late answer");
    assert_eq!(late.module_id, "late-health-response");
    assert!(late.latency_ms >= 80);
    assert!(!observe_module_control_completion(ModuleControlRpcCompletion::Unknown).known);
    let settled = observe_module_control_completion(ModuleControlRpcCompletion::Settled);
    assert!(settled.known && settled.late.is_none());
}

fn probe_error(end: ProbeEnd<u8, u8>) -> (String, String, bool) {
    let settled = settle_health_probe(end, text("aft"), None, &Span::from_millis(50), 201);
    match settled.answer {
        ProbeAnswer::Error(error) => (error.code, error.message, settled.cancel),
        other => panic!("{other:?}"),
    }
}

#[test]
fn health_probe_timeout_and_module_death_are_typed() {
    let (code, message, _) = probe_error(ProbeEnd::TimedOut);
    assert_eq!(code, "module_timeout");
    assert_eq!(message, "module_id 'aft' did not answer health.check within 50ms");
    let (code, _, _) = probe_error(ProbeEnd::ModuleGone(text("module connection closed")));
    assert_eq!(code, "target_unavailable");
    let (code, message, _) = probe_error(ProbeEnd::UnexpectedOp {
        expected: text("health.check"),
        actual: text("route.bind"),
    });
    assert_eq!(code, "invalid_control_body");
    assert_eq!(message, "expected module-control op 'health.check', got 'route.bind'");
    let (code, _, _) = probe_error(ProbeEnd::DeadlineElapsed);
    assert_eq!(code, "module_timeout");
    let (code, _, _) = probe_error(ProbeEnd::Response(ModuleControlResponse::Other));
    assert_eq!(code, "invalid_control_body");
    let (code, _, _) = probe_error(ProbeEnd::WaiterCanceled);
    assert_eq!(code, "target_unavailable");
}

#[test]
fn a_capability_problem_is_added_to_the_detail() {
    assert_eq!(
        append_capability_problem_detail(Some(text("slow")), Some(text("no vault"))),
        Some(text("slow; no vault"))
    );
    assert_eq!(append_capability_problem_detail(None, Some(text("p"))), Some(text("p")));
    assert_eq!(append_capability_problem_detail(Some(text("d")), None), Some(text("d")));
    assert_eq!(append_capability_problem_detail(None, None), None);
}

#[test]
fn hello_requires_exact_protocol_version() {
    for offered in [PROTOCOL_VERSION - 1, PROTOCOL_VERSION + 1] {
        let error = hello_refusal(hello("aft", offered, None));
        assert_eq!(error.code, "version_unsupported");
        assert!(negotiate_version(offered).is_err());
    }
    assert_eq!(negotiate_version(PROTOCOL_VERSION), Ok(PROTOCOL_VERSION));
    assert_eq!(
        negotiate_version(1).unwrap_err(),
        "protocol_ver 1 is unsupported; this daemon requires exactly 2"
    );
}

#[test]
fn unknown_module_push_op_is_ignored_but_malformed_known_op_errors() {
    assert!(matches!(
        status_update_step::<u8>(Err(text("unknown variant")), Some("route.future.v2")),
        StatusStep::Ignore
    ));
    match status_update_step::<u8>(Err(text("missing field")), Some("route.status")) {
        StatusStep::Refused(error) => {
            assert_eq!(error.code, "invalid_control_body");
            assert_eq!(error.message, "malformed module control push body: missing field");
        }
        other => panic!("{other:?}"),
    }
    assert!(matches!(
        status_update_step(
            Ok(RouteStatus { route_channel: 3, route_epoch: 4, status: 5u8 }),
            Some("route.status")
        ),
        StatusStep::Cache(RouteStatus { route_channel: 3, route_epoch: 4, status: 5 })
    ));
    assert!(is_known_module_push_op(Some("route.status")));
    assert!(!is_known_module_push_op(Some("route.future.v2")));
}

#[test]
fn hello_rejected_when_connection_already_owns_client_routes() {
    let mut facts = hello("aft-second", PROTOCOL_VERSION, None);
    facts.has_client_routes = Ok(true);
    assert_eq!(hello_refusal(facts).code, "invalid_hello");
}

#[test]
fn reserved_module_hello_requires_matching_launch_nonce() {
    let mut facts = hello("vault", PROTOCOL_VERSION, None);
    facts.reserved = Some(ReservedHelloRejection::Exact { module_id: text("vault") });
    let error = hello_refusal(facts);
    assert_eq!(error.code, "reserved_module");
    assert_eq!(
        error.message,
        "module_id 'vault' is reserved; HELLO without a valid launch nonce is rejected"
    );
    let with_nonce = |nonce: &str| {
        let mut facts = hello("vault", PROTOCOL_VERSION, None);
        if let Ok(hello) = &mut facts.hello {
            hello.launch_nonce = Some(text(nonce));
        }
        facts
    };
    let mut forged = with_nonce("forged");
    forged.reserved = Some(ReservedHelloRejection::Exact { module_id: text("vault") });
    assert_eq!(hello_refusal(forged).code, "reserved_module");
    let (manifest, _, _) = registered(with_nonce("spawn-nonce"));
    assert_eq!(manifest.module_id, "vault");
}

#[test]
fn reserved_prefix_hello_uses_delimiter_sensitive_owner_nonce() {
    let mut facts = hello("fed:peerA:tool", PROTOCOL_VERSION, None);
    facts.reserved = Some(ReservedHelloRejection::Prefix {
        prefix: text("fed:"),
        owner_module_id: text("federation"),
    });
    let error = hello_refusal(facts);
    assert_eq!(error.code, "reserved_module");
    assert!(error.message.contains("fed:"));
    assert!(error.message.contains("owned by 'federation'"));

    for module_id in ["fed:peerA:tool", "fed:x"] {
        let mut facts = hello(module_id, PROTOCOL_VERSION, None);
        facts.hello = Ok(ModuleHello {
            manifest: manifest(module_id, PROTOCOL_VERSION),
            protocol_ver: PROTOCOL_VERSION,
            control_ops: None,
            launch_nonce: Some(text("owner-nonce")),
        });
        let (manifest, negotiated_ver, _) = registered(facts);
        assert_eq!((manifest.module_id.as_str(), negotiated_ver), (module_id, PROTOCOL_VERSION));
    }
    for module_id in ["fedx:tool", "fed", "FED:x"] {
        let (manifest, _, _) = registered(hello(module_id, PROTOCOL_VERSION, None));
        assert_eq!(manifest.module_id, module_id, "{module_id}");
    }
}

#[test]
fn exact_reserved_module_takes_precedence_over_reserved_prefix() {
    let mut facts = hello("fed:special", PROTOCOL_VERSION, None);
    facts.reserved = Some(ReservedHelloRejection::Exact { module_id: text("fed:special") });
    let error = hello_refusal(facts);
    assert_eq!(error.code, "reserved_module");
    assert!(error.message.contains("module_id 'fed:special' is reserved;"));
    assert!(!error.message.contains("prefix"));
    let (manifest, _, _) = registered(hello("fed:special", PROTOCOL_VERSION, None));
    assert_eq!(manifest.module_id, "fed:special");
}

#[test]
fn non_reserved_module_ignores_launch_nonce() {
    registered(hello("aft-no-nonce", PROTOCOL_VERSION, None));
    let mut facts = hello("aft-with-nonce", PROTOCOL_VERSION, None);
    facts.hello = Ok(ModuleHello {
        manifest: manifest("aft-with-nonce", PROTOCOL_VERSION),
        protocol_ver: PROTOCOL_VERSION,
        control_ops: None,
        launch_nonce: Some(text("spawn-nonce")),
    });
    registered(facts);
}

#[test]
fn malformed_hello_returns_error_and_handler_still_answers_ping() {
    match hello_gate(b"{not json", hello("aft", PROTOCOL_VERSION, None)) {
        HelloGate::Refused(error) => {
            assert_eq!(error.code, "invalid_hello");
            assert!(error.message.starts_with("malformed HELLO body: "));
        }
        other => panic!("{other:?}"),
    }
    assert!(matches!(ControlHandler::new().handle_control(FrameType::Ping), ControlStep::Pong));
    let answer = pong(&frame(FrameType::Ping, 4));
    assert_eq!(answer.ty, FrameType::Pong);
    assert_eq!(answer.corr, 4);
}

#[test]
fn duplicate_module_id_is_rejected_without_replacing_active_registration() {
    let error =
        hello_registry_refusal(RegistryRefusal::DuplicateModuleId { module_id: text("aft") });
    assert_eq!(error.code, "duplicate_module_id");
    let error = hello_registry_refusal(RegistryRefusal::PathHazardModuleId { text: text("bad") });
    assert_eq!(error.code, "invalid_module_id");
    let error = hello_registry_refusal(RegistryRefusal::Other { text: text("poisoned") });
    assert_eq!((error.code.as_str(), error.message.as_str()), ("registry_error", "poisoned"));
    let failure = || ForwardingFailure { error: ForwardingError::Poisoned, text: text("lost") };
    let rollback = hello_forwarding_refusal(failure(), Some(1));
    assert_eq!(rollback.answer.code, "forwarding_error");
    assert!(rollback.notify_release);
    assert!(!hello_forwarding_refusal(failure(), None).notify_release);
}

#[test]
fn a_refused_hello_takes_its_registration_back() {
    let failure = || ForwardingFailure { error: ForwardingError::Poisoned, text: text("lost") };
    assert!(matches!(hello_after_registry(Ok(()), true), HelloNext::Connect));
    assert!(matches!(hello_after_registry(Ok(()), false), HelloNext::Accept));
    match hello_after_registry(
        Err(RegistryRefusal::DuplicateModuleId { module_id: text("aft") }),
        true,
    ) {
        HelloNext::Refuse(error) => assert_eq!(error.code, "duplicate_module_id"),
        other => panic!("{other:?}"),
    }
    assert!(matches!(hello_after_forwarding(Ok(())), HelloNext::Accept));
    match hello_after_forwarding(Err(failure())) {
        HelloNext::Unregister(failure) => assert_eq!(failure.text, "lost"),
        other => panic!("{other:?}"),
    }
}

#[test]
fn a_registration_carries_what_the_module_requires() {
    let mut asking = declarations(&["store/v1"], &[]);
    asking.requires.push(CapabilityRequirement {
        capability: text("credentials/v1"),
        need: CapabilityNeed::Optional,
    });
    let mut facts = hello("aft", PROTOCOL_VERSION, None);
    if let Ok(hello) = &mut facts.hello {
        hello.manifest.capabilities = Some(asking);
    }
    let (manifest, _, _) = registered(facts);
    let kept = manifest.capabilities.expect("capabilities");
    assert_eq!(kept.requires.len(), 1);
    assert_eq!(kept.requires[0].capability, "credentials/v1");
    assert_eq!(kept.requires[0].need, CapabilityNeed::Optional);
}

#[test]
fn the_end_of_standard_error_is_told_as_it_is_held() {
    let error = stderr_tail_answer(text("missing"), None).unwrap_err();
    assert_eq!(error.code, "unknown_module");
    assert_eq!(error.message, "module_id 'missing' is not supervised");

    let tail = |capture| TailSnapshot {
        capture,
        entries: vec![
            TailEntry::ProcessStart,
            TailEntry::Line { text: text("first"), truncated: false },
            TailEntry::Line { text: text("long"), truncated: true },
        ],
        dropped_lines: 7,
    };
    let answer = stderr_tail_answer(text("aft"), Some(tail(CaptureState::Captured))).unwrap();
    assert_eq!(answer.module_id, "aft");
    assert!(matches!(answer.held.capture, StderrCaptureState::Captured));
    assert_eq!(answer.held.dropped_lines, 7);
    assert_eq!(answer.held.entries.len(), 3);
    assert!(matches!(&answer.held.entries[0], StderrTailEntry::ProcessStart));
    assert!(matches!(
        &answer.held.entries[1],
        StderrTailEntry::Line { text, truncated: false } if text == "first"
    ));
    assert!(matches!(
        &answer.held.entries[2],
        StderrTailEntry::Line { text, truncated: true } if text == "long"
    ));

    let part = CaptureState::Incomplete { reason: text("rotated") };
    let answer = stderr_tail_answer(text("aft"), Some(tail(part))).unwrap();
    assert!(matches!(
        answer.held.capture,
        StderrCaptureState::Incomplete { reason } if reason == "rotated"
    ));
    let nothing = CaptureState::NotCaptured { reason: text("off") };
    let answer = stderr_tail_answer(text("aft"), Some(tail(nothing))).unwrap();
    assert!(matches!(
        answer.held.capture,
        StderrCaptureState::NotCaptured { reason } if reason == "off"
    ));
}

fn bound() -> RoutePollSnapshot<u8> {
    RoutePollSnapshot::Bound { module_id: text("aft"), status: Some(6) }
}

#[test]
fn liveness_poll_reports_false_when_process_liveness_reports_dead() {
    let answer = route_poll_answer(1, 2, PollKind::Liveness, bound(), Some(false));
    assert_eq!((answer.live, answer.status), (Some(false), None));
    assert_eq!((answer.route_channel, answer.route_epoch), (1, 2));
}

#[test]
fn liveness_poll_without_process_source_uses_bound_route() {
    let answer = route_poll_answer(1, 2, PollKind::Liveness, bound(), None);
    assert_eq!((answer.live, answer.status), (Some(true), None));
    let gone = route_poll_answer::<u8>(1, 2, PollKind::Liveness, RoutePollSnapshot::Absent, None);
    assert_eq!(gone.live, Some(false));
}

#[test]
fn liveness_poll_untracked_process_source_uses_bound_route() {
    let answer = route_poll_answer(1, 2, PollKind::Liveness, bound(), None);
    assert_eq!(answer.live, Some(true));
    let status = route_poll_answer(1, 2, PollKind::Status, bound(), Some(false));
    assert_eq!((status.live, status.status), (None, Some(6)));
}

fn client_frame(op: Option<&str>, parsed: Result<ClientRequestKind, &str>) -> ControlFrameFacts {
    ControlFrameFacts {
        from_module: Ok(false),
        op: op.map(str::to_string),
        module_request_error: None,
        client_request: parsed.map_err(str::to_string),
    }
}

fn step_code(step: ControlStep) -> String {
    match step {
        ControlStep::Refused(error) => error.code,
        other => panic!("{other:?}"),
    }
}

#[test]
fn unknown_op_returns_unknown_control_op() {
    let step = ControlHandler::new().handle_control_frame(
        FrameType::Request,
        client_frame(Some("route.nope"), Err("unknown variant")),
    );
    assert_eq!(step_code(step), "unknown_control_op");
    let header = control_answer_header(&frame(FrameType::Request, 55), FrameType::Error);
    assert_eq!((header.ty, header.corr), (FrameType::Error, 55));
}

#[test]
fn supervisor_provenance_rejects_unknown_exact_module() {
    let error = supervised_gate("missing", false).expect("refusal");
    assert_eq!(error.code, "unknown_module");
    assert_eq!(error.message, "module_id 'missing' is not supervised");
    assert!(supervised_gate("known", true).is_none());
    let error = supervised_answer::<u8>(text("missing"), None).unwrap_err();
    assert_eq!(error.message, "module_id 'missing' is not supervised");
    let answer = supervised_answer(text("known"), Some("tail")).unwrap();
    assert_eq!((answer.module_id.as_str(), answer.held), ("known", "tail"));
}

#[test]
fn malformed_control_bodies_return_invalid_control_body() {
    for op in [None, Some("route.poll")] {
        let step = ControlHandler::new()
            .handle_control_frame(FrameType::Request, client_frame(op, Err("bad")));
        assert_eq!(step_code(step), "invalid_control_body");
    }
    assert_eq!(classify_client_body(None), ControlRequestBodyError::InvalidBody);
    assert_eq!(classify_client_body(Some("x")), ControlRequestBodyError::UnknownOp);
    assert_eq!(
        classify_module_body(Some("catalog.update")),
        ControlRequestBodyError::InvalidBody
    );
    assert_eq!(classify_module_body(Some("x")), ControlRequestBodyError::UnknownOp);
}

#[test]
fn a_frame_finds_its_handler() {
    let client = |ty| dispatch_control_frame(ty, client_frame(None, Err("bad")));
    assert!(matches!(client(FrameType::Ping), ControlStep::Pong));
    assert!(matches!(client(FrameType::Hello), ControlStep::Hello));
    assert!(matches!(client(FrameType::Goodbye), ControlStep::Goodbye));
    assert!(matches!(client(FrameType::Cancel), ControlStep::Cancel));
    assert_eq!(step_code(client(FrameType::Push)), "unsupported_control_frame");
    assert!(matches!(
        dispatch_control_frame(
            FrameType::Request,
            client_frame(Some("route.open"), Ok(ClientRequestKind::RouteOpen))
        ),
        ControlStep::Client(ClientRequestKind::RouteOpen)
    ));
    assert_eq!(
        step_code(dispatch_control_frame(
            FrameType::Request,
            client_frame(Some("catalog.update"), Err("unknown variant"))
        )),
        "not_registered"
    );
    let module = |op: &str, ty| {
        let mut facts = client_frame(Some(op), Err("bad"));
        facts.from_module = Ok(true);
        dispatch_control_frame(ty, facts)
    };
    assert!(matches!(module("catalog.update", FrameType::Request), ControlStep::CatalogUpdate));
    assert!(matches!(module("route.status", FrameType::Push), ControlStep::StatusUpdate));
    assert!(matches!(module("route.bind", FrameType::Response), ControlStep::ModuleAnswer));
}

#[test]
fn an_open_names_its_target_for_the_log() {
    let target = RouteTarget::ToolProvider { module_id: text("aft") };
    assert_eq!(
        route_open_target(&frame(FrameType::Request, 1), Some(&target)),
        Some(text("aft"))
    );
    assert_eq!(route_open_target(&frame(FrameType::Push, 1), Some(&target)), None);
    assert_eq!(route_open_target(&frame(FrameType::Request, 1), None), None);
}

#[test]
fn every_client_request_is_among_the_ops() {
    for kind in [
        ClientRequestKind::ServerDescribe,
        ClientRequestKind::RouteOpen,
        ClientRequestKind::SupervisorSpawnSubscribe,
        ClientRequestKind::SupervisorTerminals,
    ] {
        assert!(subc_ops().contains(&text(client_control_request_op(kind))));
    }
    assert_eq!(module_subc_ops().len(), subc_ops().len() + 1);
}

#[test]
fn a_cancel_without_a_subscription_is_refused() {
    assert!(cancel_answer(true).is_none());
    assert_eq!(cancel_answer(false).expect("refusal").code, "unknown_subscription");
}

#[test]
fn only_a_slow_dispatch_is_told() {
    assert_eq!(slow_dispatch_ms(None), None);
    assert_eq!(slow_dispatch_ms(Some(Span::from_millis(1))), None);
    assert_eq!(slow_dispatch_ms(Some(Span::from_secs(20))), Some(20_000));
}

#[test]
fn goodbye_tears_down_registration_and_later_channel_is_unknown() {
    assert!(matches!(
        ControlHandler::new().handle_control(FrameType::Goodbye),
        ControlStep::Goodbye
    ));
    assert!(goodbye_end(Ok(1), Ok(())).unwrap());
    assert!(!goodbye_end(Ok(0), Ok(())).unwrap());
    assert!(matches!(
        goodbye_end(Ok(1), Err(ForwardingError::Poisoned)),
        Err(RouterError::Forwarding(ForwardingError::Poisoned))
    ));
    let fault = goodbye_end(Err(text("poisoned")), Ok(())).unwrap_err();
    assert_eq!(message_of(&fault), "poisoned");
}

#[test]
fn dropping_router_connection_releases_registration() {
    let end = ControlHandler::new().cleanup_connection(Some(1), true);
    assert!(end.goodbyes && end.release);
    let end = ControlHandler::new().cleanup_connection(Some(0), true);
    assert!(end.goodbyes && !end.release);
    let end = ControlHandler::new().cleanup_connection(None, false);
    assert!(!end.goodbyes && !end.release);
}

fn opener(must_never_reach: &[&str]) -> RouteOpenFacts {
    let mut facts = attested();
    facts.registration = Ok(Some(TargetRegistration {
        capabilities: Some(declarations(&["credentials-provider/v1"], &[])),
        ..registration()
    }));
    facts.opener =
        Ok(Some(OpenerRegistration { capabilities: Some(declarations(&[], must_never_reach)) }));
    facts
}

#[test]
fn route_open_capability_forbidden_mutation_proof_creates_no_route() {
    let open = request("target", Some(("opener", "opener-nonce")), None);
    let (error, _) = refusal(&open, opener(&["credentials-provider/v1"]), &no_policy());
    assert_eq!(error.code, "capability_forbidden");
    assert_eq!(
        error.message,
        "module_id 'opener' must never reach capability 'credentials-provider/v1' provided by \
         'target'"
    );
    passed(&open, opener(&["other/v1"]), &no_policy());
}

fn route_of(principal: Principal) -> CensusRoute {
    CensusRoute { principal, connection_id: 712, channel: 1, epoch: 1 }
}

fn of_opener() -> Principal {
    Principal::Reserved { module_id: text("opener") }
}

fn registered_pair(target: &[&str], opener: &[&str]) -> Vec<RegisteredCapabilities> {
    vec![
        RegisteredCapabilities {
            module_id: text("target"),
            capabilities: Some(declarations(target, &[])),
        },
        RegisteredCapabilities {
            module_id: text("opener"),
            capabilities: Some(declarations(&[], opener)),
        },
    ]
}

fn assert_capability_denied_push(module_id: &str, removed: usize) {
    let push = denied_notice(module_id, removed).expect("a push");
    assert_eq!(push.module_id, module_id);
    assert_eq!(push.reason, RouteCloseReason::CapabilityDenied);
    assert!(!push.drained);
    assert_eq!(push.abandoned, 0);
    assert_eq!(push.excluded_subscriptions, 0);
    assert_eq!(push.terminal, Some(false));
}

#[test]
fn capability_deny_edge_hello_mutation_proof_force_closes_existing_route() {
    let deny = declarations(&[], &["credentials-provider/v1"]);
    assert!(capability_census_trigger(None, Some(&deny)));
    let cut = denied_routes(
        &registered_pair(&["credentials-provider/v1"], &["credentials-provider/v1"]),
        "target",
        &vec![route_of(of_opener()), route_of(Principal::Direct)],
    );
    assert_eq!(cut.len(), 1);
    assert_eq!(cut[0].route, 0);
    assert_eq!(cut[0].capability, "credentials-provider/v1");
    assert_capability_denied_push("target", 1);
    assert!(denied_notice("target", 0).is_none());
}

#[test]
fn capability_claim_catalog_update_mutation_proof_force_closes_existing_route() {
    let old = Some(declarations(&[], &[]));
    let new = declarations(&["credentials-provider/v1"], &[]);
    assert!(matches!(
        catalog_updated(&old, Ok(Some(Some(new))), 4),
        CatalogUpdated::Done { census: true }
    ));
    let cut = enforce_capability_denies(
        &registered_pair(&["credentials-provider/v1"], &["credentials-provider/v1"]),
        &vec![CensusTarget { module_id: text("target"), routes: vec![route_of(of_opener())] }],
    );
    assert_eq!(cut.len(), 1);
    assert_eq!(cut[0].len(), 1);
    assert_capability_denied_push("target", 1);
}

#[test]
fn capability_claim_removal_mutation_proof_keeps_route_open_without_close_frame() {
    let old = Some(declarations(&["credentials-provider/v1"], &[]));
    assert!(matches!(
        catalog_updated(&old, Ok(Some(Some(declarations(&[], &[])))), 4),
        CatalogUpdated::Done { census: false }
    ));
    let cut = denied_routes(&registered_pair(&[], &[]), "target", &vec![route_of(of_opener())]);
    assert!(cut.is_empty());
}

#[test]
fn direct_client_scope_honesty_mutation_proof_opens_denied_capability_provider() {
    let mut facts = opener(&["credentials-provider/v1"]);
    facts.consumer_authorized = false;
    let principal = passed(&request("target", None, None), facts, &no_policy());
    assert!(matches!(principal, Principal::Direct));
}

#[test]
fn must_never_reach_self_route_is_capability_forbidden() {
    let both = || Some(declarations(&["credentials-provider/v1"], &["credentials-provider/v1"]));
    let mut facts = attested();
    facts.registration =
        Ok(Some(TargetRegistration { capabilities: both(), ..registration() }));
    facts.opener = Ok(Some(OpenerRegistration { capabilities: both() }));
    let (error, _) = refusal(
        &request("self-provider", Some(("self-provider", "self-nonce")), None),
        facts,
        &no_policy(),
    );
    assert_eq!(error.code, "capability_forbidden");
}

#[test]
fn unsupported_channel_zero_frame_returns_error() {
    let step = ControlHandler::new().handle_control(FrameType::Request);
    assert_eq!(step_code(step), "unsupported_control_frame");
}

fn hello_body(role_json: &str) -> Vec<u8> {
    format!(
        r#"{{"protocol_ver":2,"module_id":"m","manifest":{{"module_id":"m","module_version":"1.0.0","protocol_ver":2,"trust_tier":"first_party","provides":[{role_json}],"consumes":[],"bindings":{{"storage":{{"kind":"sqlite","scope":"project","owns_schema":false}},"vault_grants":[],"identity":{{"requires":[],"optional":[]}}}}}}}}"#
    )
    .into_bytes()
}

fn manifest_of(role: ProviderRole) -> ModuleManifest {
    let mut manifest = manifest("m", 2);
    manifest.provides = vec![role];
    manifest
}

const SURFACE_TAIL: &str =
    r#""operations":[],"config_schema":{"type":"object"},"observability":[],"identity_scope":[]"#;

#[test]
fn absent_concurrency_on_management_surface_is_reported_as_defaulted() {
    let body = hello_body(&format!(r#"{{"role":"management_surface",{SURFACE_TAIL}}}"#));
    let manifest =
        manifest_of(ProviderRole::ManagementSurface { concurrency: Concurrency::ModuleManaged });
    assert!(matches!(manifest_concurrency(&manifest), Concurrency::ModuleManaged));
    assert!(manifest_concurrency_was_defaulted(&body, &manifest));
}

#[test]
fn declared_concurrency_is_not_reported_even_when_it_equals_the_default() {
    let body = hello_body(&format!(
        r#"{{"role":"management_surface",{SURFACE_TAIL},"concurrency":"module_managed"}}"#
    ));
    let manifest =
        manifest_of(ProviderRole::ManagementSurface { concurrency: Concurrency::ModuleManaged });
    assert!(matches!(manifest_concurrency(&manifest), Concurrency::ModuleManaged));
    assert!(!manifest_concurrency_was_defaulted(&body, &manifest));
}

#[test]
fn non_management_roles_are_never_reported() {
    let body = hello_body(
        r#"{"role":"internal_service","service_id":"s","transport":"bulk","agent_facing":false,"operations":[]}"#,
    );
    let manifest = manifest_of(ProviderRole::InternalService { service_id: text("s") });
    assert!(!manifest_concurrency_was_defaulted(&body, &manifest));
}

#[test]
fn an_update_keeps_what_hello_fixed() {
    let registered = manifest("aft", 2);
    let lane = |name: &str| vec![ProviderRole::ToolProvider {
        concurrency: Concurrency::Lane(text(name)),
    }];
    assert_eq!(catalog_update_frozen_field_message(&registered, &manifest("x", 2).provides), None);
    assert_eq!(
        catalog_update_frozen_field_message(&registered, &Vec::new()).unwrap(),
        "catalog.update cannot change module 'aft' between supervision-only and routable; \
         routability is fixed at HELLO"
    );
    assert_eq!(
        catalog_update_frozen_field_message(
            &registered,
            &vec![ProviderRole::InternalService { service_id: text("s") }]
        )
        .unwrap(),
        "catalog.update cannot change provider role kinds for module 'aft'; role kinds are fixed \
         at HELLO"
    );
    assert_eq!(
        catalog_update_frozen_field_message(&registered, &lane("Serial")).unwrap(),
        "catalog.update cannot change module 'aft' concurrency from ModuleManaged to Serial; \
         concurrency is fixed at HELLO"
    );
    match catalog_update_step(&Ok(Some(registered)), &lane("Serial"), false, None, 1) {
        CatalogUpdateStep::Refused(error) => assert_eq!(error.code, "catalog_update_frozen_field"),
        other => panic!("{other:?}"),
    }
    match catalog_update_step(&Ok(None), &Vec::new(), false, None, 1) {
        CatalogUpdateStep::Refused(error) => assert_eq!(error.code, "not_registered"),
        other => panic!("{other:?}"),
    }
    assert!(matches!(
        catalog_update_step(
            &Ok(Some(manifest("aft", 2))),
            &manifest("x", 2).provides,
            false,
            None,
            1
        ),
        CatalogUpdateStep::Replace { keeps_capabilities: true }
    ));
    match catalog_update_step(
        &Ok(Some(manifest("aft", 2))),
        &manifest("x", 2).provides,
        true,
        Some(text("bad")),
        1,
    ) {
        CatalogUpdateStep::Refused(error) => assert_eq!(error.code, "invalid_capability_grammar"),
        other => panic!("{other:?}"),
    }
}

#[test]
fn a_role_has_a_kind_and_serves_its_own_targets() {
    let service = ProviderRole::InternalService { service_id: text("s") };
    assert_eq!(provider_role_kind(&service), ProviderRoleKind::InternalService);
    let roles = vec![ProviderRole::PipelineStage, service];
    let kinds = provider_role_kind_set(&roles);
    assert!(kinds.pipeline_stage && kinds.internal_service);
    assert!(!kinds.tool_provider && !kinds.management_surface);
    let target = |service_id: &str| RouteTarget::InternalService {
        module_id: text("m"),
        service_id: text(service_id),
    };
    assert!(target_has_required_role(&target("s"), &roles));
    assert!(!target_has_required_role(&target("t"), &roles));
    assert!(!target_has_required_role(
        &RouteTarget::ManagementSurface { module_id: text("m") },
        &roles
    ));
    assert!(!manifest_provides_routable_role(&manifest_of(ProviderRole::PipelineStage)));
}

#[test]
fn a_requirement_alone_needs_no_census() {
    let mut asking = declarations(&[], &[]);
    asking.requires.push(CapabilityRequirement {
        capability: text("a/v1"),
        need: CapabilityNeed::Required,
    });
    assert!(!capability_census_trigger(None, Some(&asking)));
    assert_eq!(need_text(CapabilityNeed::Required), "required");
    assert_eq!(need_text(CapabilityNeed::Optional), "optional");
}

#[test]
fn a_guard_speaks_once() {
    let endpoint = ModuleEndpointId { connection_id: 1, generation: 2 };
    let mut guard = ModuleControlRpcGuard::new(endpoint, 9);
    assert_eq!(guard.on_drop().expect("armed").corr, 9);
    guard.disarm();
    assert!(guard.on_drop().is_none());
    let mut reservation = RouteBindReservationGuard::new(endpoint, 10);
    assert_eq!(reservation.release_and_disarm().expect("armed").endpoint, endpoint);
    assert!(reservation.release_and_disarm().is_none());
}

fn end(connection_id: u64, client: bool) -> GoodbyeTarget {
    GoodbyeTarget {
        connection_id,
        channel: 12,
        epoch: 3,
        negotiated_ver: PROTOCOL_VERSION,
        module_id: if client { None } else { Some(text("aft")) },
        close_on_delivery_failure: client,
    }
}

#[test]
fn a_connection_is_pushed_to_once_however_many_routes_it_holds() {
    let targets = vec![end(5, true), end(6, true), end(5, true), end(7, true), end(6, true)];
    assert_eq!(push_targets(&targets), [0, 1, 3]);
    assert_eq!(push_header(2).ty, FrameType::Push);
    let goodbye = target_goodbye(&targets[0]);
    assert_eq!((goodbye.ty, goodbye.channel, goodbye.epoch), (FrameType::Goodbye, 12, 3));
}

#[test]
fn a_lost_notice_ends_a_client_and_never_a_module() {
    let close = undelivered_push(&end(5, true), "queue full").expect("a close");
    assert_eq!(close.code, "route_lifecycle_push_delivery_failed");
    assert_eq!(
        close.message,
        "failed to enqueue route lifecycle control PUSH for channel 12: queue full"
    );
    assert!(undelivered_push(&end(5, false), "queue full").is_none());
    assert!(matches!(
        undelivered_goodbye(&end(5, true), "queue full"),
        UndeliveredGoodbye::Close(reason)
            if reason.message == "failed to enqueue route GOODBYE for channel 12: queue full"
    ));
    assert!(matches!(
        undelivered_goodbye(&end(5, false), "queue full"),
        UndeliveredGoodbye::CountDropped { module_id: Some(id) } if id == "aft"
    ));
    assert!(counts_failed_client(Some(true)));
    assert!(!counts_failed_client(Some(false)));
    assert!(!counts_failed_client(None));
}

#[test]
fn a_crash_is_terminal_only_where_the_supervisor_says_so() {
    let terminal = |recovery| crash_notice(Some("aft"), &recovery).expect("a notice").terminal;
    assert_eq!(terminal(Recovery::WillRecover(false)), Some(true));
    assert_eq!(terminal(Recovery::WillRecover(true)), Some(false));
    assert_eq!(terminal(Recovery::NotSupervised), Some(false));
    assert_eq!(terminal(Recovery::Unreadable), Some(false));
    assert!(crash_notice(None, &Recovery::NotSupervised).is_none());
}

#[test]
fn only_a_removed_route_is_told() {
    assert!(route_goodbye_target(Ok(RouteRelease::Removed(end(1, false)))).unwrap().is_some());
    assert!(route_goodbye_target(Ok(RouteRelease::Stale)).unwrap().is_none());
    assert!(route_goodbye_target(Ok(RouteRelease::Absent)).unwrap().is_none());
    assert!(route_goodbye_target(Err(ForwardingError::Poisoned)).is_err());
}

#[test]
fn an_operation_that_fails_says_why() {
    let other = || Err(SuperviseFailure::Other(text("gone")));
    let error = restart_answer(other(), text("aft")).unwrap_err();
    assert_eq!(error.code, "target_unavailable");
    assert_eq!(error.message, "failed to restart module_id 'aft': gone");
    let error = reload_answer(other(), text("aft")).unwrap_err();
    assert_eq!(error.code, "reload_failed");
    let error =
        reload_answer(Err(SuperviseFailure::Disabled(text("off"))), text("aft")).unwrap_err();
    assert_eq!((error.code.as_str(), error.message.as_str()), ("module_disabled", "off"));
    let ack = restart_answer(Ok(()), text("aft")).unwrap();
    assert!(ack.applied && ack.module_id == "aft");
    assert!(!set_enabled_answer(Ok(false), text("aft"), true).unwrap().applied);
    let error = set_enabled_answer(Err(text("gone")), text("aft"), true).unwrap_err();
    assert_eq!(error.message, "failed to set module_id 'aft' enabled=true: gone");
}

#[test]
fn spawn_subscribe_refuses_stale_and_foreign_cursors_with_typed_details() {
    assert!(spawn_subscribe_answer(Ok(()), 1).unwrap().is_none());
    let error = spawn_subscribe_answer(
        Err(SpawnSubscribeRefusal::ForeignIncarnation { current: text("ab") }),
        1,
    )
    .unwrap()
    .unwrap();
    assert_eq!(error.code, "spawn_cursor_incarnation_mismatch");
    assert!(matches!(
        error.detail,
        Some(ErrorDetail::Field { name, value })
            if name == "current_daemon_incarnation" && value == "ab"
    ));
    let error =
        spawn_subscribe_answer(Err(SpawnSubscribeRefusal::TooOld { oldest: text("{}") }), 1)
            .unwrap()
            .unwrap();
    assert_eq!(error.code, "spawn_cursor_too_old");
    assert!(spawn_subscribe_answer(Err(SpawnSubscribeRefusal::Frame(text("x"))), 1).is_err());
}

fn status(module_id: &str) -> Status {
    ModuleStatus {
        module_id: text(module_id),
        state: text("running"),
        enabled: true,
        live: true,
        protocol: ModuleProtocol::Subc,
        health: HealthStatus {
            status: 1,
            detail: Some(text("fine")),
            metrics: None,
            consecutive_failures: 2,
            late_answer_count: 3,
            last_late_answer_latency_ms: Some(4),
            last_action: None,
            last_action_ms: None,
            last_probe_ms: Some(5),
        },
        last_exit: Some(LastExit { code: Some(23), signal: None, at_ms: 6, kind: 7 }),
        restart_count: 8,
        max_restarts: 9,
        lifetime_restarts: 10,
        spawn_generation: 11,
        restart_window: Span::from_secs(600),
        drain_timeout: Span::from_millis(1500),
        restart_backoff: Span::from_millis(100),
        restart_max_backoff: Span::from_secs(30),
    }
}

#[test]
fn a_status_is_told_field_by_field() {
    let entry = supervisor_entry(status("aft"));
    assert_eq!(entry.module_id, "aft");
    assert_eq!(entry.last_exit_code, Some(23));
    assert_eq!(entry.last_exit_ms, Some(6));
    assert_eq!(entry.last_exit_kind, Some(7));
    assert_eq!(entry.restart_window_secs, Some(600));
    assert_eq!(entry.drain_timeout_ms, Some(1500));
    assert_eq!(entry.restart_max_backoff_ms, Some(30_000));
    assert_eq!(entry.last_probe_ms, Some(5));
    let mut silent = status("nats");
    silent.last_exit = None;
    let entry = supervisor_entry(silent);
    assert_eq!(entry.last_exit_code, None);
    assert_eq!(entry.last_exit_kind, None);
}

#[test]
fn one_unreadable_module_fails_the_whole_answer() {
    let list = supervisor_list(Ok(3), vec![Ok(status("a")), Ok(status("b"))], 1).unwrap();
    assert_eq!((list.generation, list.modules.len()), (3, 2));
    let readings: Vec<Result<Status, String>> = vec![Ok(status("a")), Err(text("lost"))];
    let fault = supervisor_list(Ok(3), readings, 1).unwrap_err();
    assert!(message_of(&fault).contains("lost"));
    let health =
        supervisor_health(Ok(3), vec![Ok((status("a"), Some(text("no vault"))))], 1).unwrap();
    assert_eq!(health.modules[0].detail.as_deref(), Some("fine; no vault"));
    assert_eq!(health.modules[0].late_answer_count, 3);
    let fault = read_all(vec![Ok(1), Err(text("first")), Err(text("second"))], "what: ", 9)
        .unwrap_err();
    assert_eq!(message_of(&fault), "what: first");
}

#[test]
fn a_module_that_declares_no_build_is_unverifiable() {
    let reading = |declared| ProvenanceReading {
        status: Ok((text("aft"), "observed")),
        declared,
    };
    let told = supervisor_provenance(vec![reading(Ok(Some("build"))), reading(Ok(None))], 1)
        .unwrap();
    assert!(matches!(
        told[0].module_declared,
        ModuleDeclaredProvenance::Reported { build: "build" }
    ));
    assert!(matches!(told[1].module_declared, ModuleDeclaredProvenance::Unverifiable));
    assert_eq!(told[1].daemon_observed, "observed");
    let failed: Vec<ProvenanceReading<u8, u8>> =
        vec![ProvenanceReading { status: Err(text("lost")), declared: Ok(None) }];
    assert_eq!(
        message_of(&supervisor_provenance(failed, 1).unwrap_err()),
        "failed to read supervisor status: lost"
    );
}

#[test]
fn a_request_that_settles_no_bind_never_accepts_one() {
    let mut facts = health_facts(None);
    facts.op = Ok(text("route.bind"));
    match module_answer_step(FrameType::Response, facts) {
        ModuleAnswerStep::Bind { outcome, complaint } => {
            assert!(!matches!(outcome, RouteBindRelayOutcome::Accepted));
            assert_eq!(complaint.expect("complaint").code, "invalid_control_body");
        }
        _ => panic!("a bind answer must settle a bind"),
    }
    let mut facts = health_facts(Some("health.check"));
    facts.response = Err(text("bad body"));
    assert!(matches!(
        module_answer_step(FrameType::Response, facts),
        ModuleAnswerStep::Rpc {
            outcome: ModuleControlRpcOutcome::MalformedResponse(message), ..
        } if message == "malformed health.check response body: bad body"
    ));
    match module_answer_step(FrameType::Ping, health_facts(None)) {
        ModuleAnswerStep::Refused(error) => {
            assert_eq!(error.code, "unsupported_control_frame");
            assert_eq!(error.message, "unsupported module channel-0 frame Ping");
        }
        _ => panic!("a ping is no answer"),
    }
}

#[test]
fn an_answer_carries_the_version_of_its_request() {
    assert_eq!(response_version(PROTOCOL_VERSION), PROTOCOL_VERSION);
    let header = control_answer_header(
        &FrameHeader {
            ver: PROTOCOL_VERSION,
            ty: FrameType::Request,
            flags: FrameFlags::Carried(3),
            channel: 9,
            epoch: 8,
            corr: 7,
        },
        FrameType::Response,
    );
    assert_eq!(header.flags, FrameFlags::Control);
    assert_eq!((header.channel, header.epoch, header.corr), (0, 0, 7));
    assert!(matches!(
        backend(5, text("x")),
        RouterError::Backend { channel: 0, corr: 5, message } if message == "x"
    ));
    assert!(matches!(CgroupPlacementConfig::default(), CgroupPlacementConfig::Disabled));
}

#[test]
fn a_handler_is_built_with_what_it_is_given() {
    let handler = ControlHandler::new()
        .with_route_bind_relay_timeout(Span::from_secs(3))
        .with_route_bind_relay_timeouts(&vec![(text("slow"), Span::from_secs(60))])
        .with_route_bind_breaker(5, Span::from_secs(9))
        .with_health_probe_timeout(Span::from_secs(1))
        .with_admission_facts_config(Some(text("fed")), Some(texts(&["t"])))
        .with_storage_config(Some(StorageConfig::Sqlite { data_home: text("/d") }))
        .with_daemon_provenance(7, 8, None, None, None)
        .with_supervisor_rescan("/etc/subc.jsonc", Some(1), false);
    assert_eq!(handler.route_bind_relay_timeout_for("slow"), Span::from_secs(60));
    assert_eq!(handler.route_bind_relay_timeout_for("other"), Span::from_secs(3));
    assert_eq!(handler.route_bind_breaker.threshold, 5);
    let context = handler.rescan.expect("rescan");
    assert_eq!(context.admission_facts_targets, Some(texts(&["t"])));
    assert!(matches!(
        context.storage_config,
        Some(StorageConfig::Sqlite { data_home }) if data_home == "/d"
    ));
}
