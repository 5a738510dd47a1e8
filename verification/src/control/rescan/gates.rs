//! What holds before and after a rescan's steps: which files are taken, what needs a
//! restart, and what is answered.
use crate::control::answers::tells;
use crate::control::rescan::plan::RescanDiff;
use crate::control::rescan::records::{a_record_is_found_where_there_is_one, is_configured};
use crate::control::rescan::{
    all_sections, capability_steps, changed_labels, release_answer, release_gate, rescan_answer,
    rescan_end, rescan_gate, rescan_spec_refusal, restart_required_sections, section_changed,
    spec_rule, CapabilityStep, RescanContext, RescanEnd, RescanGate, SupervisorRescanResult,
};
use crate::control::wire::ErrorBody;
use crate::daemon_config::document::{config_error_text, DaemonConfig, DaemonConfigError};
use crate::daemon_config::laws::{lists_differ, lists_differ_by_their_texts};
use crate::daemon_config::module::{enabled_modules, module_views, switch_views};
use crate::daemon_config::{RestartRequiredSection, StorageConfig};
use crate::paths::one_path;
use crate::problems::{no_problem_means_all_pass, problem_found};
use crate::text::{pairs, texts};
use vstd::prelude::*;

verus! {

/// Two optional strings differ.
pub open spec fn options_differ(a: Option<String>, b: Option<String>) -> bool {
    (a is Some) != (b is Some) || (a is Some && a->0@ != b->0@)
}

/// The stores stand elsewhere.
pub open spec fn homes_differ(
    windows: bool,
    a: Option<StorageConfig>,
    b: Option<StorageConfig>,
) -> bool {
    match (a, b) {
        (None, None) => false,
        (Some(StorageConfig::Sqlite { data_home: a }), Some(StorageConfig::Sqlite { data_home: b })) =>
            !one_path(windows, a@, b@),
        _ => true,
    }
}

/// The targets of admission facts are others.
pub open spec fn targets_differ(a: Option<Vec<String>>, b: Option<Vec<String>>) -> bool {
    (a is Some) != (b is Some) || (a is Some && lists_differ(a->0@, b->0@))
}

/// A restart is called for by each of four settings on its own, and told by its name:
/// the port, the storage, the carrier and the targets of admission facts.
pub proof fn what_needs_a_restart(context: &RescanContext, config: &DaemonConfig, r: Vec<String>)
    requires
        call_ensures(restart_required_sections, (context, config), r),
    ensures
        texts(r@).contains("port"@) <==> config.port != context.configured_port,
        texts(r@).contains("storage"@) <==> homes_differ(
            context.windows,
            config.storage,
            context.storage_config,
        ),
        texts(r@).contains("admission_facts_carrier_module_id"@) <==> options_differ(
            config.admission_facts_carrier_module_id,
            context.admission_facts_carrier_module_id,
        ),
        texts(r@).contains("admission_facts_targets"@) <==> targets_differ(
            config.admission_facts_targets,
            context.admission_facts_targets,
        ),
        r@.len() <= 4,
{
    let all = all_sections();
    let c = *context;
    let v = config@;
    let three = all.drop_last();
    let two = three.drop_last();
    let one = two.drop_last();
    assert(one.drop_last() =~= Seq::empty());
    reveal_with_fuel(changed_labels, 5);
    let l1 = changed_labels(one, c, v);
    let l2 = changed_labels(two, c, v);
    let l3 = changed_labels(three, c, v);
    let l4 = changed_labels(all, c, v);
    reveal_strlit("port");
    reveal_strlit("storage");
    reveal_strlit("admission_facts_carrier_module_id");
    reveal_strlit("admission_facts_targets");
    let p = "port"@;
    let s = "storage"@;
    let m = "admission_facts_carrier_module_id"@;
    let t = "admission_facts_targets"@;
    assert(p[0] != s[0] && p[0] != m[0] && p[0] != t[0] && s[0] != m[0] && s[0] != t[0]);
    assert(m.len() != t.len());
    let want_p = section_changed(RestartRequiredSection::Port, c, v);
    let want_s = section_changed(RestartRequiredSection::Storage, c, v);
    let want_m = section_changed(RestartRequiredSection::AdmissionFactsCarrierModuleId, c, v);
    let want_t = section_changed(RestartRequiredSection::AdmissionFactsTargets, c, v);
    let none = Seq::<Seq<char>>::empty();
    let e1 = if want_p {
        none.push(p)
    } else {
        none
    };
    let e2 = if want_s {
        e1.push(s)
    } else {
        e1
    };
    let e3 = if want_m {
        e2.push(m)
    } else {
        e2
    };
    let e4 = if want_t {
        e3.push(t)
    } else {
        e3
    };
    assert(l1 =~= e1);
    assert(l2 =~= e2);
    assert(l3 =~= e3);
    assert(l4 =~= e4);
    a_push_adds_its_element(none, p);
    a_push_adds_its_element(e1, s);
    a_push_adds_its_element(e2, m);
    a_push_adds_its_element(e3, t);
    assert(texts(r@).len() == r@.len());
    if config.admission_facts_targets is Some && context.admission_facts_targets is Some {
        lists_differ_by_their_texts(
            config.admission_facts_targets->0@,
            context.admission_facts_targets->0@,
        );
    }
}

proof fn a_push_adds_its_element(list: Seq<Seq<char>>, x: Seq<char>)
    ensures
        forall|y: Seq<char>| #[trigger]
            list.push(x).contains(y) <==> list.contains(y) || y == x,
{
    assert forall|y: Seq<char>| #[trigger]
        list.push(x).contains(y) <==> list.contains(y) || y == x by {
        let all = list.push(x);
        assert(all[list.len() as int] == x);
        if list.contains(y) {
            let k = choose|k: int| 0 <= k < list.len() && list[k] == y;
            assert(all[k] == y);
        }
        if all.contains(y) {
            let k = choose|k: int| 0 <= k < all.len() && all[k] == y;
            if k < list.len() {
                assert(list[k] == y);
            }
        }
    }
}

/// A rescan goes on exactly where the daemon knows its file and the file was read; a
/// file that is gone is refused, for it would end every module.
pub proof fn which_file_is_rescanned(
    context: &Option<RescanContext>,
    loaded: Result<Option<DaemonConfig>, DaemonConfigError>,
    r: RescanGate,
)
    requires
        call_ensures(rescan_gate, (context, loaded), r),
    ensures
        r is Go <==> context is Some && (loaded matches Ok(Some(_))),
        r matches RescanGate::Go { config, .. } ==> loaded == Ok::<_, DaemonConfigError>(
            Some(config),
        ),
        context is None ==> (r matches RescanGate::Refused(e) && tells(
            e,
            "rescan_unavailable"@,
            "the daemon was not started with a reloadable config path"@,
        )),
        context matches Some(known) ==> (loaded matches Ok(None) ==> (
        r matches RescanGate::Refused(e) && tells(
            e,
            "invalid_daemon_config"@,
            "daemon config not found at "@ + known.config_path@
                + "; refusing to rescan (an absent config would retire every supervised module)"@,
        ))),
        context is Some ==> (loaded matches Err(error) ==> (r matches RescanGate::Refused(e)
            && tells(
            e,
            "invalid_daemon_config"@,
            "supervisor rescan rejected daemon config: "@ + config_error_text(error@),
        ))),
{
}

/// A rescan whose modules could not all be started is refused by the first that could
/// not.
pub proof fn the_first_module_that_cannot_start_refuses(
    errors: &Vec<Option<String>>,
    r: Option<ErrorBody>,
    i: int,
)
    requires
        call_ensures(rescan_spec_refusal, (errors,), r),
    ensures
        (forall|k: int| 0 <= k < errors@.len() ==> (#[trigger] errors@[k]) is None) ==> r is None,
        r is None && 0 <= i < errors@.len() ==> errors@[i] is None,
        0 <= i < errors@.len() && (forall|k: int|
            0 <= k < i ==> (#[trigger] errors@[k]) is None) ==> (errors@[i] matches Some(text)
            ==> r is Some && tells(
            r->0,
            "invalid_daemon_config"@,
            "supervisor rescan rejected daemon config: "@ + text@,
        )),
{
    let rule = spec_rule();
    no_problem_means_all_pass(errors@, rule);
    if forall|k: int| 0 <= k < errors@.len() ==> (#[trigger] errors@[k]) is None {
        assert forall|k: int| 0 <= k < errors@.len() implies rule(
            #[trigger] errors@[k],
        ) is None by {}
    }
    if r is None && 0 <= i < errors@.len() {
        assert(rule(errors@[i]) is None);
    }
    if 0 <= i < errors@.len() && (forall|k: int|
        0 <= k < i ==> (#[trigger] errors@[k]) is None) && errors@[i] is Some {
        let before = errors@.take(i);
        assert forall|k: int| 0 <= k < before.len() implies rule(#[trigger] before[k]) is None by {
            assert(before[k] == errors@[k]);
        }
        no_problem_means_all_pass(before, rule);
        assert(rule(errors@[i]) is Some);
        problem_found(errors@, rule, i);
    }
}

/// A rescan is answered with each list of what it found in its place; what capabilities
/// would be missing is told in a preview and only there.
pub proof fn a_rescan_is_answered_with_what_it_found<W>(
    diff: RescanDiff,
    preview: bool,
    restart_required: Vec<String>,
    capability_warnings: Vec<W>,
    r: SupervisorRescanResult<W>,
)
    requires
        call_ensures(
            rescan_answer::<W>,
            (diff, preview, restart_required, capability_warnings),
            r,
        ),
    ensures
        r.added == diff.added,
        r.removed == diff.removed,
        r.changed_pending_reload == diff.changed_pending_reload,
        r.enabled_changes == diff.enabled_changes,
        r.unchanged == diff.unchanged,
        r.preview == preview,
        r.restart_required == restart_required,
        preview ==> r.capability_warnings@ == capability_warnings@,
        !preview ==> r.capability_warnings@.len() == 0,
{
}

/// A rescan whose steps failed is refused as they failed. One that was carried through
/// hands the evaluator every module of the file with its own switch, and every
/// reservation; a preview hands it nothing.
pub proof fn how_a_rescan_ends<W>(
    failed: Option<ErrorBody>,
    config: &DaemonConfig,
    diff: RescanDiff,
    preview: bool,
    restart_required: Vec<String>,
    capability_warnings: Vec<W>,
    r: RescanEnd<W>,
    i: int,
)
    requires
        call_ensures(
            rescan_end::<W>,
            (failed, config, diff, preview, restart_required, capability_warnings),
            r,
        ),
    ensures
        failed matches Some(error) ==> r == RescanEnd::<W>::Refused(error),
        failed is None ==> (r matches RescanEnd::Answered { follow_up, answer } && {
            &&& answer.added == diff.added
            &&& answer.removed == diff.removed
            &&& answer.changed_pending_reload == diff.changed_pending_reload
            &&& answer.enabled_changes == diff.enabled_changes
            &&& answer.unchanged == diff.unchanged
            &&& answer.preview == preview
            &&& answer.restart_required == restart_required
            &&& preview ==> answer.capability_warnings@ == capability_warnings@
                && follow_up@.len() == 0
            &&& !preview ==> answer.capability_warnings@.len() == 0 && follow_up@.len() == 3
                && follow_up@[1] is WakeDeadlines && follow_up@[2] is RefreshRequirements && (
            follow_up@[0] matches CapabilityStep::Configure { modules, reserved_capabilities }
                && modules@.len() == config.modules@.len() && (0 <= i < config.modules@.len()
                ==> modules@[i].0@ == config.modules@[i].module_id@ && modules@[i].1
                == config.modules@[i].enabled) && pairs(reserved_capabilities@) == pairs(
                config.reserved_capabilities@,
            ))
        }),
{
    if failed is None {
        let follow_up = r->Answered_follow_up;
        let views = capability_steps(follow_up@);
        assert(views.len() == follow_up@.len());
        if !preview {
            assert(views[0] == follow_up@[0]@);
            assert(views[1] == follow_up@[1]@);
            assert(views[2] == follow_up@[2]@);
            let modules = follow_up@[0]->Configure_modules;
            let wanted = enabled_modules(module_views(config.modules@));
            assert(switch_views(modules@) == wanted);
            assert(switch_views(modules@).len() == modules@.len());
            assert(wanted.len() == config.modules@.len());
            if 0 <= i < config.modules@.len() {
                assert(switch_views(modules@)[i] == (modules@[i].0@, modules@[i].1));
                assert(module_views(config.modules@)[i] == config.modules@[i]@);
                assert(wanted[i] == (config.modules@[i].module_id@, config.modules@[i].enabled));
            }
        }
    }
}

/// A reserved id is released exactly where the file was read and does not have it any
/// more.
pub proof fn which_reserved_id_is_released(
    context: &Option<RescanContext>,
    loaded: &Result<Option<DaemonConfig>, DaemonConfigError>,
    module_id: &str,
    r: Option<ErrorBody>,
)
    requires
        call_ensures(release_gate, (context, loaded, module_id), r),
    ensures
        r is None <==> context is Some && (loaded matches Ok(Some(config)) && !is_configured(
            config.modules@,
            module_id@,
        )),
        context is None ==> r is Some && tells(
            r->0,
            "release_unavailable"@,
            "reserved-id release requires a daemon started with a reloadable config path"@,
        ),
        context matches Some(known) ==> (loaded matches Ok(None) ==> r is Some && tells(
            r->0,
            "invalid_daemon_config"@,
            "daemon config not found at "@ + known.config_path@
                + "; refusing to release reserved module_id '"@ + module_id@ + "'"@,
        )),
        context is Some ==> (loaded matches Err(error) ==> r is Some && tells(
            r->0,
            "invalid_daemon_config"@,
            "unable to verify reserved-id release against daemon config: "@ + config_error_text(
                error@,
            ),
        )),
        context is Some ==> (loaded matches Ok(Some(config)) ==> (is_configured(
            config.modules@,
            module_id@,
        ) ==> r is Some && tells(
            r->0,
            "reserved_module_configured"@,
            "module_id '"@ + module_id@
                + "' remains configured; remove its config entry and rescan before releasing its reserved id"@,
        ))),
{
    if loaded is Ok && loaded->Ok_0 is Some {
        a_record_is_found_where_there_is_one(loaded->Ok_0->0.modules@, module_id@);
    }
}

/// A release that met its gate is silent; any other is told that there was none.
pub proof fn a_release_that_met_nothing_is_told(
    released: bool,
    module_id: &str,
    r: Option<ErrorBody>,
)
    requires
        call_ensures(release_answer, (released, module_id), r),
    ensures
        released ==> r is None,
        !released ==> r is Some && tells(
            r->0,
            "reserved_gate_not_retained"@,
            "module_id '"@ + module_id@
                + "' has no retired reserved-id gate to release; rescan its removed reserved configuration first"@,
        ),
{
}

/// A rescan that goes on tells what needs a restart under the file that was read.
pub proof fn a_rescan_tells_what_needs_a_restart(
    context: RescanContext,
    config: DaemonConfig,
    r: RescanGate,
    sections: Vec<String>,
)
    requires
        call_ensures(rescan_gate, (&Some(context), Ok(Some(config))), r),
        call_ensures(restart_required_sections, (&context, &config), sections),
    ensures
        r matches RescanGate::Go { config: read, restart_required } && read == config && texts(
            restart_required@,
        ) == texts(sections@),
{
}

} // verus!
