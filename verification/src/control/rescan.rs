//! Bringing the supervised modules in line with the configuration.
pub mod gates;
pub mod laws;
pub mod plan;
pub mod records;

use crate::control::rescan::plan::{configured_as, index_configured, RescanDiff};
use crate::control::wire::{control_error, error_of, ErrorBody, ErrorView};
use crate::daemon_config::document::{
    config_error_text, storage_home, ConfigErrorView, ConfigView, DaemonConfig, DaemonConfigError,
};
use crate::daemon_config::module::{enabled_modules, switch_views, switches};
use crate::daemon_config::validate::text_list;
use crate::daemon_config::{section_label, RestartRequiredSection, StorageConfig};
use crate::paths::{one_path, same_path};
use crate::problems::{first_problem, passes_on, problem_found};
use crate::text::{copy_pairs, pairs, same_option, same_texts, text_option, texts};
use crate::text_map::TextMap;
use vstd::prelude::*;

verus! {

/// What the daemon was started with, as far as a rescan compares it.
#[derive(Debug)]
pub struct RescanContext {
    /// The data home is a path of Windows.
    pub windows: bool,
    pub config_path: String,
    pub configured_port: Option<u16>,
    pub storage_config: Option<StorageConfig>,
    pub admission_facts_carrier_module_id: Option<String>,
    pub admission_facts_targets: Option<Vec<String>>,
}

/// Two data homes are one path, or there is neither.
pub open spec fn one_home(windows: bool, a: Option<Seq<char>>, b: Option<Seq<char>>) -> bool {
    match (a, b) {
        (Some(a), Some(b)) => one_path(windows, a, b),
        (None, None) => true,
        _ => false,
    }
}

/// A section differs from what the daemon was started with.
pub open spec fn section_changed(
    section: RestartRequiredSection,
    context: RescanContext,
    config: ConfigView,
) -> bool {
    match section {
        RestartRequiredSection::Port => config.port != context.configured_port,
        RestartRequiredSection::Storage => !one_home(
            context.windows,
            config.data_home,
            storage_home(context.storage_config),
        ),
        RestartRequiredSection::AdmissionFactsCarrierModuleId =>
            config.admission_facts_carrier_module_id != text_option(
            context.admission_facts_carrier_module_id,
        ),
        RestartRequiredSection::AdmissionFactsTargets => config.admission_facts_targets
            != text_list(context.admission_facts_targets),
    }
}

/// The labels of those of the sections that changed.
pub open spec fn changed_labels(
    sections: Seq<RestartRequiredSection>,
    context: RescanContext,
    config: ConfigView,
) -> Seq<Seq<char>>
    decreases sections.len(),
{
    if sections.len() == 0 {
        Seq::empty()
    } else {
        let before = changed_labels(sections.drop_last(), context, config);
        if section_changed(sections.last(), context, config) {
            before.push(section_label(sections.last()))
        } else {
            before
        }
    }
}

/// The sections that a rescan cannot apply, in the order in which they are
/// reported.
pub open spec fn all_sections() -> Seq<RestartRequiredSection> {
    seq![
        RestartRequiredSection::Port,
        RestartRequiredSection::Storage,
        RestartRequiredSection::AdmissionFactsCarrierModuleId,
        RestartRequiredSection::AdmissionFactsTargets,
    ]
}

fn same_list(a: &Option<Vec<String>>, b: &Option<Vec<String>>) -> (r: bool)
    ensures
        r == (text_list(*a) == text_list(*b)),
{
    match (a, b) {
        (Some(a), Some(b)) => same_texts(a, b),
        (None, None) => true,
        _ => false,
    }
}

fn same_storage(windows: bool, a: &Option<StorageConfig>, b: &Option<StorageConfig>) -> (r: bool)
    ensures
        r == one_home(windows, storage_home(*a), storage_home(*b)),
{
    match (a, b) {
        (
            Some(StorageConfig::Sqlite { data_home: a }),
            Some(StorageConfig::Sqlite { data_home: b }),
        ) => same_path(windows, a.as_str(), b.as_str()),
        (None, None) => true,
        _ => false,
    }
}

/// The sections that changed and that only a restart of the daemon applies.
pub fn restart_required_sections(context: &RescanContext, config: &DaemonConfig) -> (r: Vec<String>)
    ensures
        texts(r@) == changed_labels(all_sections(), *context, config@),
{
    let ghost all = all_sections();
    let mut r: Vec<String> = Vec::new();
    let mut i: usize = 0;
    proof {
        assert(texts(r@) =~= Seq::empty());
        assert(RestartRequiredSection::ALL@ =~= all);
    }
    while i < 4
        invariant
            i <= 4,
            all == all_sections(),
            RestartRequiredSection::ALL@ == all,
            texts(r@) == changed_labels(all.take(i as int), *context, config@),
        decreases 4 - i,
    {
        let section: RestartRequiredSection = RestartRequiredSection::ALL[i];
        let ghost was = r@;
        proof {
            assert(all.take(i + 1).drop_last() =~= all.take(i as int));
            assert(all.take(i + 1).last() == section);
        }
        let changed: bool = match section {
            RestartRequiredSection::Port => match (config.port, context.configured_port) {
                (Some(a), Some(b)) => a != b,
                (None, None) => false,
                _ => true,
            },
            RestartRequiredSection::Storage => !same_storage(
                context.windows,
                &config.storage,
                &context.storage_config,
            ),
            RestartRequiredSection::AdmissionFactsCarrierModuleId => !same_option(
                &config.admission_facts_carrier_module_id,
                &context.admission_facts_carrier_module_id,
            ),
            RestartRequiredSection::AdmissionFactsTargets => !same_list(
                &config.admission_facts_targets,
                &context.admission_facts_targets,
            ),
        };
        if changed {
            r.push(String::from_str(section.label()));
            proof {
                assert(texts(r@) =~= texts(was).push(section_label(section)));
            }
        }
        i += 1;
    }
    proof {
        assert(all.take(4) =~= all);
    }
    r
}

/// Whether a rescan goes on.
#[derive(Debug)]
pub enum RescanGate {
    Refused(ErrorBody),
    /// With the sections that only a restart applies.
    Go { config: DaemonConfig, restart_required: Vec<String> },
}

/// What was read of the configuration, over characters.
pub open spec fn loaded_view(loaded: Result<Option<DaemonConfig>, DaemonConfigError>) -> Result<
    Option<ConfigView>,
    ConfigErrorView,
> {
    match loaded {
        Ok(Some(config)) => Ok(Some(config@)),
        Ok(None) => Ok(None),
        Err(e) => Err(e@),
    }
}

/// Why a rescan does not start. An absent file is no instruction to remove
/// anything: it would otherwise read as one that names no module.
pub open spec fn rescan_refusal(
    context: Option<RescanContext>,
    loaded: Result<Option<ConfigView>, ConfigErrorView>,
) -> Option<ErrorView> {
    match context {
        None => Some(
            error_of(
                "rescan_unavailable"@,
                "the daemon was not started with a reloadable config path"@,
            ),
        ),
        Some(context) => match loaded {
            Err(e) => Some(
                error_of(
                    "invalid_daemon_config"@,
                    "supervisor rescan rejected daemon config: "@ + config_error_text(e),
                ),
            ),
            Ok(None) => Some(
                error_of(
                    "invalid_daemon_config"@,
                    "daemon config not found at "@ + context.config_path@
                        + "; refusing to rescan (an absent config would retire every supervised module)"@,
                ),
            ),
            Ok(Some(_)) => None,
        },
    }
}

/// Decides whether a rescan goes on.
pub fn rescan_gate(
    context: &Option<RescanContext>,
    loaded: Result<Option<DaemonConfig>, DaemonConfigError>,
) -> (r: RescanGate)
    ensures
        match r {
            RescanGate::Refused(e) => rescan_refusal(*context, loaded_view(loaded)) == Some(e@),
            RescanGate::Go { config, restart_required } => {
                &&& rescan_refusal(*context, loaded_view(loaded)) is None
                &&& loaded == Ok::<_, DaemonConfigError>(Some(config))
                &&& texts(restart_required@) == changed_labels(
                    all_sections(),
                    context->0,
                    config@,
                )
            },
        },
{
    let context: &RescanContext = match context {
        None => return RescanGate::Refused(
            control_error(
                "rescan_unavailable",
                String::from_str("the daemon was not started with a reloadable config path"),
            ),
        ),
        Some(context) => context,
    };
    match loaded {
        Err(e) => RescanGate::Refused(
            control_error(
                "invalid_daemon_config",
                String::from_str("supervisor rescan rejected daemon config: ").concat(
                    e.to_text().as_str(),
                ),
            ),
        ),
        Ok(None) => RescanGate::Refused(
            control_error(
                "invalid_daemon_config",
                String::from_str("daemon config not found at ").concat(
                    context.config_path.as_str(),
                ).concat(
                    "; refusing to rescan (an absent config would retire every supervised module)",
                ),
            ),
        ),
        Ok(Some(config)) => {
            let restart_required: Vec<String> = restart_required_sections(context, &config);
            RescanGate::Go { config, restart_required }
        },
    }
}

/// What a spec that cannot be started is refused with.
pub open spec fn spec_refusal(error: Option<String>) -> Option<Seq<char>> {
    match error {
        Some(text) => Some("supervisor rescan rejected daemon config: "@ + text@),
        None => None,
    }
}

/// The rule for the specs of the configured modules.
pub open spec fn spec_rule() -> spec_fn(Option<String>) -> Option<Seq<char>> {
    |error: Option<String>| spec_refusal(error)
}

/// Refuses a configuration that holds a spec which cannot be started. `errors`
/// says of each configured module why it is such a one, if it is.
pub fn rescan_spec_refusal(errors: &Vec<Option<String>>) -> (r: Option<ErrorBody>)
    ensures
        r is None <==> first_problem(errors@, spec_rule()) is None,
        r matches Some(e) ==> e@ == error_of(
            "invalid_daemon_config"@,
            first_problem(errors@, spec_rule())->0,
        ),
{
    let ghost all = errors@;
    let ghost rule = spec_rule();
    let mut i: usize = 0;
    while i < errors.len()
        invariant
            i <= errors.len(),
            all == errors@,
            rule == spec_rule(),
            first_problem(all.take(i as int), rule) is None,
        decreases errors.len() - i,
    {
        proof {
            assert(rule(all[i as int]) == spec_refusal(all[i as int]));
        }
        if let Some(text) = &errors[i] {
            proof {
                problem_found(all, rule, i as int);
            }
            return Some(
                control_error(
                    "invalid_daemon_config",
                    String::from_str("supervisor rescan rejected daemon config: ").concat(
                        text.as_str(),
                    ),
                ),
            );
        }
        proof {
            passes_on(all, rule, i as int);
        }
        i += 1;
    }
    proof {
        assert(all.take(i as int) =~= all);
    }
    None
}

/// What a client is told of a rescan.
#[derive(Debug)]
pub struct SupervisorRescanResult<W> {
    pub added: Vec<String>,
    pub removed: Vec<String>,
    pub changed_pending_reload: Vec<String>,
    pub enabled_changes: Vec<String>,
    pub unchanged: u32,
    pub preview: bool,
    pub restart_required: Vec<String>,
    /// Of a preview alone.
    pub capability_warnings: Vec<W>,
}

/// A result tells of what was found, whether it was a preview, what only a restart
/// applies, and of a preview what it warns of.
pub open spec fn answers<W>(
    r: SupervisorRescanResult<W>,
    diff: RescanDiff,
    preview: bool,
    restart_required: Vec<String>,
    capability_warnings: Seq<W>,
) -> bool {
    &&& r.added == diff.added
    &&& r.removed == diff.removed
    &&& r.changed_pending_reload == diff.changed_pending_reload
    &&& r.enabled_changes == diff.enabled_changes
    &&& r.unchanged == diff.unchanged
    &&& r.preview == preview
    &&& r.restart_required == restart_required
    &&& r.capability_warnings@ == if preview {
        capability_warnings
    } else {
        Seq::<W>::empty()
    }
}

/// Answers a rescan.
pub fn rescan_answer<W>(
    diff: RescanDiff,
    preview: bool,
    restart_required: Vec<String>,
    capability_warnings: Vec<W>,
) -> (r: SupervisorRescanResult<W>)
    ensures
        answers(r, diff, preview, restart_required, capability_warnings@),
{
    let capability_warnings: Vec<W> = if preview {
        capability_warnings
    } else {
        Vec::new()
    };
    SupervisorRescanResult {
        added: diff.added,
        removed: diff.removed,
        changed_pending_reload: diff.changed_pending_reload,
        enabled_changes: diff.enabled_changes,
        unchanged: diff.unchanged,
        preview,
        restart_required,
        capability_warnings,
    }
}

/// A step by which the capability evaluator learns of a configuration.
#[derive(Debug)]
pub enum CapabilityStep {
    /// It is told of the modules, with whether they are enabled, and of what is
    /// reserved to which.
    Configure { modules: Vec<(String, bool)>, reserved_capabilities: Vec<(String, String)> },
    /// The loop that waits for deadlines looks at them anew.
    WakeDeadlines,
    RefreshRequirements,
}

/// A [`CapabilityStep`] over characters.
#[verifier::ext_equal]
pub enum CapabilityStepView {
    Configure {
        modules: Seq<(Seq<char>, bool)>,
        reserved_capabilities: Seq<(Seq<char>, Seq<char>)>,
    },
    WakeDeadlines,
    RefreshRequirements,
}

impl View for CapabilityStep {
    type V = CapabilityStepView;

    open spec fn view(&self) -> CapabilityStepView {
        match *self {
            CapabilityStep::Configure { modules, reserved_capabilities } =>
                CapabilityStepView::Configure {
                modules: switch_views(modules@),
                reserved_capabilities: pairs(reserved_capabilities@),
            },
            CapabilityStep::WakeDeadlines => CapabilityStepView::WakeDeadlines,
            CapabilityStep::RefreshRequirements => CapabilityStepView::RefreshRequirements,
        }
    }
}

/// The steps over characters.
pub open spec fn capability_steps(steps: Seq<CapabilityStep>) -> Seq<CapabilityStepView> {
    steps.map_values(|s: CapabilityStep| s@)
}

/// What the evaluator learns of a rescan that was carried through: the configuration
/// that was read. Of a preview it learns nothing.
pub open spec fn follow_up_of(config: ConfigView, preview: bool) -> Seq<CapabilityStepView> {
    if preview {
        Seq::empty()
    } else {
        seq![
            CapabilityStepView::Configure {
                modules: enabled_modules(config.modules),
                reserved_capabilities: config.reserved_capabilities,
            },
            CapabilityStepView::WakeDeadlines,
            CapabilityStepView::RefreshRequirements,
        ]
    }
}

fn follow_up(config: &DaemonConfig, preview: bool) -> (r: Vec<CapabilityStep>)
    ensures
        capability_steps(r@) == follow_up_of(config@, preview),
{
    let mut r: Vec<CapabilityStep> = Vec::new();
    if !preview {
        r.push(
            CapabilityStep::Configure {
                modules: switches(&config.modules),
                reserved_capabilities: copy_pairs(&config.reserved_capabilities),
            },
        );
        r.push(CapabilityStep::WakeDeadlines);
        r.push(CapabilityStep::RefreshRequirements);
    }
    proof {
        assert(capability_steps(r@) =~= follow_up_of(config@, preview));
    }
    r
}

/// The end of a rescan.
#[derive(Debug)]
pub enum RescanEnd<W> {
    Refused(ErrorBody),
    /// The steps are taken, in this order, before the client is told.
    Answered { follow_up: Vec<CapabilityStep>, answer: SupervisorRescanResult<W> },
}

/// Ends a rescan whose steps were all taken, or one of which failed. A rescan that
/// failed on the way leaves the capability evaluator as it was, as a preview does.
pub fn rescan_end<W>(
    failed: Option<ErrorBody>,
    config: &DaemonConfig,
    diff: RescanDiff,
    preview: bool,
    restart_required: Vec<String>,
    capability_warnings: Vec<W>,
) -> (r: RescanEnd<W>)
    ensures
        match r {
            RescanEnd::Refused(error) => failed == Some(error),
            RescanEnd::Answered { follow_up, answer } => {
                &&& failed is None
                &&& capability_steps(follow_up@) == follow_up_of(config@, preview)
                &&& answers(answer, diff, preview, restart_required, capability_warnings@)
            },
        },
{
    match failed {
        Some(error) => RescanEnd::Refused(error),
        None => RescanEnd::Answered {
            follow_up: follow_up(config, preview),
            answer: rescan_answer(diff, preview, restart_required, capability_warnings),
        },
    }
}

/// Why a reserved id is not released.
pub open spec fn release_refusal(
    context: Option<RescanContext>,
    loaded: Result<Option<ConfigView>, ConfigErrorView>,
    module_id: Seq<char>,
) -> Option<ErrorView> {
    match context {
        None => Some(
            error_of(
                "release_unavailable"@,
                "reserved-id release requires a daemon started with a reloadable config path"@,
            ),
        ),
        Some(context) => match loaded {
            Ok(None) => Some(
                error_of(
                    "invalid_daemon_config"@,
                    "daemon config not found at "@ + context.config_path@
                        + "; refusing to release reserved module_id '"@ + module_id + "'"@,
                ),
            ),
            Err(e) => Some(
                error_of(
                    "invalid_daemon_config"@,
                    "unable to verify reserved-id release against daemon config: "@
                        + config_error_text(e),
                ),
            ),
            Ok(Some(config)) => if configured_as(config.modules, module_id) is Some {
                Some(
                    error_of(
                        "reserved_module_configured"@,
                        "module_id '"@ + module_id
                            + "' remains configured; remove its config entry and rescan before releasing its reserved id"@,
                    ),
                )
            } else {
                None
            },
        },
    }
}

/// Decides whether a reserved id may be released: not while it is configured, and
/// not where that cannot be seen. Nothing means that it may.
pub fn release_gate(
    context: &Option<RescanContext>,
    loaded: &Result<Option<DaemonConfig>, DaemonConfigError>,
    module_id: &str,
) -> (r: Option<ErrorBody>)
    ensures
        match r {
            Some(e) => release_refusal(*context, loaded_view(*loaded), module_id@) == Some(e@),
            None => release_refusal(*context, loaded_view(*loaded), module_id@) is None,
        },
{
    let context: &RescanContext = match context {
        None => return Some(
            control_error(
                "release_unavailable",
                String::from_str(
                    "reserved-id release requires a daemon started with a reloadable config path",
                ),
            ),
        ),
        Some(context) => context,
    };
    match loaded {
        Ok(None) => Some(
            control_error(
                "invalid_daemon_config",
                String::from_str("daemon config not found at ").concat(
                    context.config_path.as_str(),
                ).concat("; refusing to release reserved module_id '").concat(module_id).concat(
                    "'",
                ),
            ),
        ),
        Err(e) => Some(
            control_error(
                "invalid_daemon_config",
                String::from_str(
                    "unable to verify reserved-id release against daemon config: ",
                ).concat(e.to_text().as_str()),
            ),
        ),
        Ok(Some(config)) => {
            let wanted: TextMap<usize> = index_configured(&config.modules);
            if wanted.contains_key(module_id) {
                Some(
                    control_error(
                        "reserved_module_configured",
                        String::from_str("module_id '").concat(module_id).concat(
                            "' remains configured; remove its config entry and rescan before releasing its reserved id",
                        ),
                    ),
                )
            } else {
                None
            }
        },
    }
}

/// The answer to a release that was tried. Nothing means that the id is free.
pub fn release_answer(released: bool, module_id: &str) -> (r: Option<ErrorBody>)
    ensures
        r is None <==> released,
        r matches Some(e) ==> e@ == error_of(
            "reserved_gate_not_retained"@,
            "module_id '"@ + module_id@
                + "' has no retired reserved-id gate to release; rescan its removed reserved configuration first"@,
        ),
{
    if released {
        None
    } else {
        Some(
            control_error(
                "reserved_gate_not_retained",
                String::from_str("module_id '").concat(module_id).concat(
                    "' has no retired reserved-id gate to release; rescan its removed reserved configuration first",
                ),
            ),
        )
    }
}

} // verus!
