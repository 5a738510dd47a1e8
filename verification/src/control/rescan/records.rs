//! What a rescan does with each module, stated on the record that runs and on the
//! record of the file.
use crate::control::answers::tells;
use crate::control::rescan::plan::{
    action_views, addition_actions, addition_of, change_actions, change_of, configured_as, lists,
    one_list_for_a_kind, reading_rule, reconcile_supervised_modules, removal_actions,
    rescan_actions, rescan_next, running_as, ActionView, Rescan, RescanAction, RescanNext,
    RescanPlan, RunningModule,
};
use crate::daemon_config::laws::{
    lists_differ, lists_differ_by_their_texts, variables_differ, variables_differ_by_their_texts,
};
use crate::daemon_config::module::{module_views, spec_of, ConfiguredModule, ModuleSpec};
use crate::daemon_config::policy::HealthConfig;
use crate::paths::one_path;
use crate::problems::{first_problem, no_problem_means_all_pass, problem_found};
use crate::text::{before, texts};
use crate::text_map::ascending;
use vstd::prelude::*;

verus! {

/// The `i`-th record is the last of its id in the file: the one that counts.
pub open spec fn last_configured(configured: Seq<ConfiguredModule>, i: int) -> bool {
    &&& 0 <= i < configured.len()
    &&& forall|k: int|
        i < k < configured.len() ==> (#[trigger] configured[k]).module_id@
            != configured[i].module_id@
}

/// The `j`-th running module is the last of its id: the one that counts.
pub open spec fn last_running(running: Seq<RunningModule>, j: int) -> bool {
    &&& 0 <= j < running.len()
    &&& forall|k: int|
        j < k < running.len() ==> (#[trigger] running[k]).module_id@ != running[j].module_id@
}

/// The file has a record of this id.
pub open spec fn is_configured(configured: Seq<ConfiguredModule>, id: Seq<char>) -> bool {
    exists|k: int| 0 <= k < configured.len() && (#[trigger] configured[k]).module_id@ == id
}

/// A module of this id runs.
pub open spec fn is_running(running: Seq<RunningModule>, id: Seq<char>) -> bool {
    exists|k: int| 0 <= k < running.len() && (#[trigger] running[k]).module_id@ == id
}

/// The way in which a module was started is not that of its record: another id,
/// program, argument, variable, reservation, prefix or protocol.
pub open spec fn starts_otherwise(
    windows: bool,
    now: ModuleSpec,
    m: ConfiguredModule,
    env: Seq<(String, String)>,
) -> bool {
    ||| now.module_id@ != m.module_id@
    ||| !one_path(windows, now.program@, m.program@)
    ||| lists_differ(now.args@, m.args@)
    ||| variables_differ(now.env@, env)
    ||| now.reserved != m.reserved
    ||| lists_differ(now.reserved_prefixes@, m.reserved_prefixes@)
    ||| now.protocol != m.protocol
}

/// The health settings differ in some field.
pub open spec fn health_differs(now: HealthConfig, wanted: HealthConfig) -> bool {
    ||| now.cadence@ != wanted.cadence@
    ||| now.deadline@ != wanted.deadline@
    ||| now.failure_threshold != wanted.failure_threshold
    ||| now.on_degraded != wanted.on_degraded
    ||| now.on_failing != wanted.on_failing
    ||| now.critical != wanted.critical
}

/// A start that is that of a record, field by field.
pub open spec fn is_start_of(
    spec: ModuleSpec,
    m: ConfiguredModule,
    env: Seq<(String, String)>,
) -> bool {
    &&& spec.module_id@ == m.module_id@
    &&& spec.program@ == m.program@
    &&& !lists_differ(spec.args@, m.args@)
    &&& !variables_differ(spec.env@, env)
    &&& spec.reserved == m.reserved
    &&& !lists_differ(spec.reserved_prefixes@, m.reserved_prefixes@)
    &&& spec.protocol == m.protocol
}

/// The step hands the supervisor the record's start, health and drain time.
pub open spec fn updates_to(
    action: RescanAction,
    m: ConfiguredModule,
    env: Seq<(String, String)>,
) -> bool {
    action matches RescanAction::Update { module_id, spec, health, drain_timeout_ms } && module_id@
        == m.module_id@ && is_start_of(spec, m, env) && !health_differs(health, m.health)
        && drain_timeout_ms == m.drain_timeout_ms
}

/// The step adds the module as its record has it.
pub open spec fn adds_module(
    action: RescanAction,
    m: ConfiguredModule,
    env: Seq<(String, String)>,
) -> bool {
    action matches RescanAction::Add {
        module_id,
        spec,
        enabled,
        health,
        drain_timeout_ms,
        restart,
    } && module_id@ == m.module_id@ && is_start_of(spec, m, env) && enabled == m.enabled
        && !health_differs(health, m.health) && drain_timeout_ms == m.drain_timeout_ms
        && restart.max_restarts == m.restart.max_restarts && restart.backoff@ == m.restart.backoff@
        && restart.max_backoff@ == m.restart.max_backoff@ && restart.window@ == m.restart.window@
}

proof fn the_last_record_counts(configured: Seq<ConfiguredModule>, i: int)
    requires
        last_configured(configured, i),
    ensures
        configured_as(module_views(configured), configured[i].module_id@) == Some(configured[i]@),
    decreases configured.len(),
{
    let views = module_views(configured);
    let last = configured.len() - 1;
    assert(views.last() == configured[last]@);
    if i < last {
        let before = configured.drop_last();
        assert(views.drop_last() =~= module_views(before));
        assert(before[i] == configured[i]);
        assert forall|k: int| i < k < before.len() implies (#[trigger] before[k]).module_id@
            != before[i].module_id@ by {
            assert(before[k] == configured[k]);
        }
        the_last_record_counts(before, i);
        assert(configured[last].module_id@ != configured[i].module_id@);
    }
}

pub(crate) proof fn a_record_is_found_where_there_is_one(configured: Seq<ConfiguredModule>, id: Seq<char>)
    ensures
        configured_as(module_views(configured), id) is Some <==> is_configured(configured, id),
    decreases configured.len(),
{
    let views = module_views(configured);
    if configured.len() > 0 {
        let before = configured.drop_last();
        let last = configured.len() - 1;
        a_record_is_found_where_there_is_one(before, id);
        assert(views.last() == configured[last]@);
        assert(views.drop_last() =~= module_views(before));
        if is_configured(configured, id) {
            let k = choose|k: int|
                0 <= k < configured.len() && (#[trigger] configured[k]).module_id@ == id;
            if k < last {
                assert(before[k].module_id@ == id);
            }
        }
        if is_configured(before, id) {
            let k = choose|k: int|
                0 <= k < before.len() && (#[trigger] before[k]).module_id@ == id;
            assert(configured[k].module_id@ == id);
        }
    }
}

proof fn the_last_running_counts(running: Seq<RunningModule>, j: int)
    requires
        last_running(running, j),
    ensures
        running_as(running, running[j].module_id@) matches Some(now) && now.spec
            == running[j].configuration->Ok_0.0@ && now.health == running[j].configuration->Ok_0.1@
            && now.enabled == running[j].enabled->Ok_0,
    decreases running.len(),
{
    let last = running.len() - 1;
    if j < last {
        let before = running.drop_last();
        assert(before[j] == running[j]);
        assert forall|k: int| j < k < before.len() implies (#[trigger] before[k]).module_id@
            != before[j].module_id@ by {
            assert(before[k] == running[k]);
        }
        the_last_running_counts(before, j);
        assert(running[last].module_id@ != running[j].module_id@);
    }
}

proof fn a_running_module_is_found_where_there_is_one(running: Seq<RunningModule>, id: Seq<char>)
    ensures
        running_as(running, id) is Some <==> is_running(running, id),
    decreases running.len(),
{
    if running.len() > 0 {
        let before = running.drop_last();
        let last = running.len() - 1;
        a_running_module_is_found_where_there_is_one(before, id);
        if is_running(running, id) {
            let k = choose|k: int|
                0 <= k < running.len() && (#[trigger] running[k]).module_id@ == id;
            if k < last {
                assert(before[k].module_id@ == id);
            }
        }
        if is_running(before, id) {
            let k = choose|k: int|
                0 <= k < before.len() && (#[trigger] before[k]).module_id@ == id;
            assert(running[k].module_id@ == id);
        }
        if running[last].module_id@ == id {
            assert(is_running(running, id));
        }
    }
}

proof fn every_reading_came_through(running: Seq<RunningModule>, j: int)
    requires
        first_problem(running, reading_rule()) is None,
        0 <= j < running.len(),
    ensures
        running[j].configuration is Ok,
        running[j].enabled is Ok,
{
    no_problem_means_all_pass(running, reading_rule());
    assert(reading_rule()(running[j]) is None);
}

/// A module that runs and is configured is pending a reload exactly where it was
/// started otherwise than its record says, in any one field: an argument more, less
/// or other, a variable, the reservation, a prefix, the protocol, the id, the program,
/// or a health setting. It is neither added nor removed.
pub proof fn a_module_that_starts_otherwise_is_pending(
    windows: bool,
    running: &Vec<RunningModule>,
    configured: &Vec<ConfiguredModule>,
    preview: bool,
    r: Result<RescanPlan, String>,
    i: int,
    j: int,
    started: ModuleSpec,
)
    requires
        call_ensures(reconcile_supervised_modules, (windows, running, configured, preview), r),
        r is Ok,
        last_configured(configured@, i),
        last_running(running@, j),
        configured@[i].module_id@ == running@[j].module_id@,
        call_ensures(ConfiguredModule::module_spec, (&configured@[i],), started),
    ensures
        running@[j].configuration is Ok,
        running@[j].enabled is Ok,
        ({
            let id = configured@[i].module_id@;
            let diff = r->Ok_0.diff;
            let (now, health) = running@[j].configuration->Ok_0;
            &&& texts(diff.changed_pending_reload@).contains(id) <==> starts_otherwise(
                windows,
                now,
                configured@[i],
                started.env@,
            ) || health_differs(health, configured@[i].health)
            &&& texts(diff.enabled_changes@).contains(id) <==> running@[j].enabled->Ok_0
                != configured@[i].enabled
            &&& !texts(diff.added@).contains(id)
            &&& !texts(diff.removed@).contains(id)
        }),
{
    let id = configured@[i].module_id@;
    let rescan = Rescan { windows, configured: module_views(configured@), running: running@ };
    let diff = r->Ok_0.diff;
    let m = configured@[i];
    every_reading_came_through(running@, j);
    the_last_record_counts(configured@, i);
    the_last_running_counts(running@, j);
    let (now, health) = running@[j].configuration->Ok_0;
    lists_differ_by_their_texts(now.args@, m.args@);
    lists_differ_by_their_texts(now.reserved_prefixes@, m.reserved_prefixes@);
    variables_differ_by_their_texts(now.env@, started.env@);
    assert(texts(diff.changed_pending_reload@).contains(id) <==> rescan.changes()(id));
    assert(texts(diff.enabled_changes@).contains(id) <==> rescan.switches()(id));
    assert(texts(diff.added@).contains(id) <==> rescan.additions()(id));
    assert(texts(diff.removed@).contains(id) <==> rescan.removals()(id));
    assert(started@ == spec_of(m@));
    assert(health_differs(health, m.health) <==> health@ != m.health@);
    let wanted = spec_of(m@);
    if !starts_otherwise(windows, now, m, started.env@) {
        assert(now@ =~= (crate::daemon_config::module::ModuleSpecView {
            program: now@.program,
            ..wanted
        }));
    }
}

/// A module is added exactly where the file has it and it does not run, and removed
/// exactly where it runs and the file does not have it.
pub proof fn additions_and_removals_are_the_differences(
    windows: bool,
    running: &Vec<RunningModule>,
    configured: &Vec<ConfiguredModule>,
    preview: bool,
    r: Result<RescanPlan, String>,
    id: Seq<char>,
)
    requires
        call_ensures(reconcile_supervised_modules, (windows, running, configured, preview), r),
        r is Ok,
    ensures
        texts(r->Ok_0.diff.added@).contains(id) <==> is_configured(configured@, id) && !is_running(
            running@,
            id,
        ),
        texts(r->Ok_0.diff.removed@).contains(id) <==> is_running(running@, id) && !is_configured(
            configured@,
            id,
        ),
        texts(r->Ok_0.configured@).contains(id) <==> is_configured(configured@, id),
        texts(r->Ok_0.diff.changed_pending_reload@).contains(id) ==> is_configured(
            configured@,
            id,
        ) && is_running(running@, id),
        texts(r->Ok_0.diff.enabled_changes@).contains(id) ==> is_configured(configured@, id)
            && is_running(running@, id),
{
    let rescan = Rescan { windows, configured: module_views(configured@), running: running@ };
    let diff = r->Ok_0.diff;
    a_record_is_found_where_there_is_one(configured@, id);
    a_running_module_is_found_where_there_is_one(running@, id);
    assert(texts(diff.added@).contains(id) <==> rescan.additions()(id));
    assert(texts(diff.removed@).contains(id) <==> rescan.removals()(id));
    assert(texts(diff.changed_pending_reload@).contains(id) <==> rescan.changes()(id));
    assert(texts(diff.enabled_changes@).contains(id) <==> rescan.switches()(id));
    assert(texts(r->Ok_0.configured@).contains(id) <==> rescan.wanted()(id));
}

/// The modules counted as unchanged are those of the file that are on none of the
/// lists: neither added, nor pending a reload, nor switched.
pub proof fn the_unchanged_are_those_on_no_list(
    windows: bool,
    running: &Vec<RunningModule>,
    configured: &Vec<ConfiguredModule>,
    preview: bool,
    r: Result<RescanPlan, String>,
    kept: Seq<Seq<char>>,
)
    requires
        call_ensures(reconcile_supervised_modules, (windows, running, configured, preview), r),
        r is Ok,
        ascending(kept),
        forall|id: Seq<char>| #[trigger]
            kept.contains(id) <==> is_configured(configured@, id) && !texts(
                r->Ok_0.diff.added@,
            ).contains(id) && !texts(r->Ok_0.diff.changed_pending_reload@).contains(id) && !texts(
                r->Ok_0.diff.enabled_changes@,
            ).contains(id),
    ensures
        r->Ok_0.diff.unchanged == if kept.len() < u32::MAX {
            kept.len()
        } else {
            u32::MAX as nat
        },
{
    let rescan = Rescan { windows, configured: module_views(configured@), running: running@ };
    let diff = r->Ok_0.diff;
    assert forall|id: Seq<char>| #[trigger] kept.contains(id) <==> rescan.keeps()(id) by {
        a_record_is_found_where_there_is_one(configured@, id);
        a_running_module_is_found_where_there_is_one(running@, id);
        assert(texts(diff.added@).contains(id) <==> rescan.additions()(id));
        assert(texts(diff.changed_pending_reload@).contains(id) <==> rescan.changes()(id));
        assert(texts(diff.enabled_changes@).contains(id) <==> rescan.switches()(id));
    }
    assert(lists(kept, rescan.keeps()));
    let chosen = choose|ids: Seq<Seq<char>>| lists(ids, rescan.keeps());
    one_list_for_a_kind(kept, chosen, rescan.keeps());
}

proof fn both_hold_what_either_holds(a: Seq<ActionView>, b: Seq<ActionView>, x: ActionView)
    ensures
        (a + b).contains(x) <==> a.contains(x) || b.contains(x),
{
    let all = a + b;
    if a.contains(x) {
        let k = choose|k: int| 0 <= k < a.len() && a[k] == x;
        assert(all[k] == x);
    }
    if b.contains(x) {
        let k = choose|k: int| 0 <= k < b.len() && b[k] == x;
        assert(all[a.len() + k] == x);
    }
    if all.contains(x) {
        let k = choose|k: int| 0 <= k < all.len() && all[k] == x;
        if k < a.len() {
            assert(a[k] == x);
        } else {
            assert(b[k - a.len()] == x);
        }
    }
}

proof fn changes_are_made_id_by_id(rescan: Rescan, ids: Seq<Seq<char>>, x: ActionView)
    ensures
        change_actions(rescan, ids).contains(x) <==> exists|k: int|
            0 <= k < ids.len() && change_of(rescan, #[trigger] ids[k]).contains(x),
    decreases ids.len(),
{
    if ids.len() > 0 {
        let before = ids.drop_last();
        let last = ids.len() - 1;
        changes_are_made_id_by_id(rescan, before, x);
        both_hold_what_either_holds(
            change_actions(rescan, before),
            change_of(rescan, ids.last()),
            x,
        );
        if exists|k: int| 0 <= k < ids.len() && change_of(rescan, #[trigger] ids[k]).contains(x) {
            let k = choose|k: int|
                0 <= k < ids.len() && change_of(rescan, #[trigger] ids[k]).contains(x);
            if k < last {
                assert(change_of(rescan, before[k]).contains(x));
            }
        }
        if exists|k: int|
            0 <= k < before.len() && change_of(rescan, #[trigger] before[k]).contains(x) {
            let k = choose|k: int|
                0 <= k < before.len() && change_of(rescan, #[trigger] before[k]).contains(x);
            assert(change_of(rescan, ids[k]).contains(x));
        }
        assert(ids[last] == ids.last());
    }
}

proof fn removals_are_made_id_by_id(ids: Seq<Seq<char>>, x: ActionView)
    ensures
        removal_actions(ids).contains(x) <==> match x {
            ActionView::Retire { module_id } => ids.contains(module_id),
            ActionView::RecordRemoval { module_id } => ids.contains(module_id),
            ActionView::Forget { module_id } => ids.contains(module_id),
            _ => false,
        },
    decreases ids.len(),
{
    if ids.len() > 0 {
        let before = ids.drop_last();
        let module_id = ids.last();
        let three = seq![
            ActionView::Retire { module_id },
            ActionView::RecordRemoval { module_id },
            ActionView::Forget { module_id },
        ];
        removals_are_made_id_by_id(before, x);
        both_hold_what_either_holds(removal_actions(before), three, x);
        assert(three[0] == (ActionView::Retire { module_id }));
        assert(three[1] == (ActionView::RecordRemoval { module_id }));
        assert(three[2] == (ActionView::Forget { module_id }));
        if three.contains(x) {
            let k = choose|k: int| 0 <= k < three.len() && three[k] == x;
            assert(k == 0 || k == 1 || k == 2);
        }
        assert forall|id: Seq<char>| #[trigger] ids.contains(id) <==> before.contains(id) || id
            == module_id by {
            if before.contains(id) {
                let k = choose|k: int| 0 <= k < before.len() && before[k] == id;
                assert(ids[k] == id);
            }
            assert(ids[ids.len() - 1] == module_id);
            if ids.contains(id) && id != module_id {
                let k = choose|k: int| 0 <= k < ids.len() && ids[k] == id;
                assert(before[k] == id);
            }
        }
    }
}

proof fn additions_are_made_id_by_id(rescan: Rescan, ids: Seq<Seq<char>>, x: ActionView)
    ensures
        addition_actions(rescan, ids).contains(x) <==> exists|k: int|
            0 <= k < ids.len() && addition_of(rescan, #[trigger] ids[k]) == x,
{
    let all = addition_actions(rescan, ids);
    if all.contains(x) {
        let k = choose|k: int| 0 <= k < all.len() && all[k] == x;
        assert(addition_of(rescan, ids[k]) == x);
    }
    if exists|k: int| 0 <= k < ids.len() && addition_of(rescan, #[trigger] ids[k]) == x {
        let k = choose|k: int| 0 <= k < ids.len() && addition_of(rescan, #[trigger] ids[k]) == x;
        assert(all[k] == x);
    }
}

/// A step of the plan in its view is one of the plan's three parts.
proof fn a_step_is_of_one_part(plan: RescanPlan, rescan: Rescan, x: ActionView)
    requires
        action_views(plan.actions@) == rescan_actions(rescan, plan),
    ensures
        (exists|j: int| 0 <= j < plan.actions@.len() && (#[trigger] plan.actions@[j])@ == x) <==> {
            ||| removal_actions(texts(plan.diff.removed@)).contains(x)
            ||| change_actions(rescan, texts(plan.configured@)).contains(x)
            ||| addition_actions(rescan, texts(plan.diff.added@)).contains(x)
        },
{
    let first = removal_actions(texts(plan.diff.removed@));
    let second = change_actions(rescan, texts(plan.configured@));
    let third = addition_actions(rescan, texts(plan.diff.added@));
    both_hold_what_either_holds(first + second, third, x);
    both_hold_what_either_holds(first, second, x);
    let views = action_views(plan.actions@);
    if views.contains(x) {
        let j = choose|j: int| 0 <= j < views.len() && views[j] == x;
        assert(plan.actions@[j]@ == x);
    }
    if exists|j: int| 0 <= j < plan.actions@.len() && (#[trigger] plan.actions@[j])@ == x {
        let j = choose|j: int| 0 <= j < plan.actions@.len() && (#[trigger] plan.actions@[j])@ == x;
        assert(views[j] == x);
    }
}

/// The steps that stand for one id in the middle part of a plan.
proof fn the_changes_of_one_id(rescan: Rescan, ids: Seq<Seq<char>>, id: Seq<char>, x: ActionView)
    requires
        forall|other: Seq<char>| #[trigger] ids.contains(other) <==> rescan.wants(other),
        match x {
            ActionView::Update { module_id, .. } => module_id == id,
            ActionView::SetEnabled { module_id, .. } => module_id == id,
            _ => false,
        },
    ensures
        change_actions(rescan, ids).contains(x) <==> rescan.wants(id) && change_of(
            rescan,
            id,
        ).contains(x),
{
    changes_are_made_id_by_id(rescan, ids, x);
    if rescan.wants(id) && change_of(rescan, id).contains(x) {
        let k = choose|k: int| 0 <= k < ids.len() && ids[k] == id;
        assert(ids.contains(id));
        assert(change_of(rescan, ids[k]).contains(x));
    }
    if change_actions(rescan, ids).contains(x) {
        let k = choose|k: int|
            0 <= k < ids.len() && change_of(rescan, #[trigger] ids[k]).contains(x);
        let steps = change_of(rescan, ids[k]);
        let n = choose|n: int| 0 <= n < steps.len() && steps[n] == x;
        assert(ids[k] == id);
        assert(ids.contains(id));
    }
}

/// A module that is pending a reload is handed its record, all of it, and one that is
/// not is not touched: there is such a step exactly where its id is on the list.
pub proof fn a_pending_module_is_handed_its_record(
    windows: bool,
    running: &Vec<RunningModule>,
    configured: &Vec<ConfiguredModule>,
    r: Result<RescanPlan, String>,
    i: int,
    j: int,
    started: ModuleSpec,
)
    requires
        call_ensures(reconcile_supervised_modules, (windows, running, configured, false), r),
        r is Ok,
        last_configured(configured@, i),
        call_ensures(ConfiguredModule::module_spec, (&configured@[i],), started),
    ensures
        texts(r->Ok_0.diff.changed_pending_reload@).contains(configured@[i].module_id@) ==> exists|
            k: int,
        |
            0 <= k < r->Ok_0.actions@.len() && updates_to(
                #[trigger] r->Ok_0.actions@[k],
                configured@[i],
                started.env@,
            ),
        0 <= j < r->Ok_0.actions@.len() ==> (r->Ok_0.actions@[j] matches RescanAction::Update {
            module_id,
            ..
        } ==> texts(r->Ok_0.diff.changed_pending_reload@).contains(module_id@) && (module_id@
            == configured@[i].module_id@ ==> updates_to(
            r->Ok_0.actions@[j],
            configured@[i],
            started.env@,
        ))),
{
    let plan = r->Ok_0;
    let m = configured@[i];
    let id = m.module_id@;
    let rescan = Rescan { windows, configured: module_views(configured@), running: running@ };
    let ids = texts(plan.configured@);
    the_last_record_counts(configured@, i);
    assert forall|other: Seq<char>| #[trigger] ids.contains(other) <==> rescan.wants(other) by {
        assert(ids.contains(other) <==> rescan.wanted()(other));
    }
    let wanted = ActionView::Update {
        module_id: id,
        spec: spec_of(m@),
        health: m@.health,
        drain_timeout_ms: m.drain_timeout_ms,
    };
    assert(started@ == spec_of(m@));
    assert(texts(plan.diff.changed_pending_reload@).contains(id) <==> rescan.changes()(id));
    a_step_is_of_one_part(plan, rescan, wanted);
    the_changes_of_one_id(rescan, ids, id, wanted);
    assert forall|k: int|
        0 <= k < plan.actions@.len() && (#[trigger] plan.actions@[k])@ == wanted implies updates_to(
        plan.actions@[k],
        m,
        started.env@,
    ) by {
        let spec = plan.actions@[k]->Update_spec;
        lists_differ_by_their_texts(spec.args@, m.args@);
        lists_differ_by_their_texts(spec.reserved_prefixes@, m.reserved_prefixes@);
        variables_differ_by_their_texts(spec.env@, started.env@);
    }
    if rescan.changed(id) {
        let steps = change_of(rescan, id);
        assert(steps[0] == wanted);
        assert(steps.contains(wanted));
    }
    if 0 <= j < plan.actions@.len() && plan.actions@[j] is Update {
        let x = plan.actions@[j]@;
        let other = x->Update_module_id;
        a_step_is_of_one_part(plan, rescan, x);
        removals_are_made_id_by_id(texts(plan.diff.removed@), x);
        additions_are_made_id_by_id(rescan, texts(plan.diff.added@), x);
        the_changes_of_one_id(rescan, ids, other, x);
        let steps = change_of(rescan, other);
        let n = choose|n: int| 0 <= n < steps.len() && steps[n] == x;
        assert(texts(plan.diff.changed_pending_reload@).contains(other) <==> rescan.changes()(
            other,
        ));
        assert(rescan.changed(other));
        if other == id {
            assert(x == wanted);
        }
    }
}

/// A module whose switch moved is switched to what its record says, and no other is
/// switched.
pub proof fn a_moved_switch_is_set_to_its_record(
    windows: bool,
    running: &Vec<RunningModule>,
    configured: &Vec<ConfiguredModule>,
    r: Result<RescanPlan, String>,
    i: int,
    j: int,
)
    requires
        call_ensures(reconcile_supervised_modules, (windows, running, configured, false), r),
        r is Ok,
        last_configured(configured@, i),
    ensures
        texts(r->Ok_0.diff.enabled_changes@).contains(configured@[i].module_id@) ==> exists|k: int|
            0 <= k < r->Ok_0.actions@.len() && (
            #[trigger] r->Ok_0.actions@[k] matches RescanAction::SetEnabled { module_id, enabled }
                && module_id@ == configured@[i].module_id@ && enabled == configured@[i].enabled),
        0 <= j < r->Ok_0.actions@.len() ==> (r->Ok_0.actions@[j] matches RescanAction::SetEnabled {
            module_id,
            enabled,
        } ==> texts(r->Ok_0.diff.enabled_changes@).contains(module_id@) && (module_id@
            == configured@[i].module_id@ ==> enabled == configured@[i].enabled)),
{
    let plan = r->Ok_0;
    let m = configured@[i];
    let id = m.module_id@;
    let rescan = Rescan { windows, configured: module_views(configured@), running: running@ };
    let ids = texts(plan.configured@);
    the_last_record_counts(configured@, i);
    assert forall|other: Seq<char>| #[trigger] ids.contains(other) <==> rescan.wants(other) by {
        assert(ids.contains(other) <==> rescan.wanted()(other));
    }
    let wanted = ActionView::SetEnabled { module_id: id, enabled: m.enabled };
    assert(texts(plan.diff.enabled_changes@).contains(id) <==> rescan.switches()(id));
    a_step_is_of_one_part(plan, rescan, wanted);
    the_changes_of_one_id(rescan, ids, id, wanted);
    if rescan.switched(id) {
        let steps = change_of(rescan, id);
        assert(steps[steps.len() - 1] == wanted);
        assert(steps.contains(wanted));
        let k = choose|k: int| 0 <= k < plan.actions@.len() && (#[trigger] plan.actions@[k])@
            == wanted;
        assert(plan.actions@[k] is SetEnabled);
    }
    if 0 <= j < plan.actions@.len() && plan.actions@[j] is SetEnabled {
        let x = plan.actions@[j]@;
        let other = x->SetEnabled_module_id;
        a_step_is_of_one_part(plan, rescan, x);
        removals_are_made_id_by_id(texts(plan.diff.removed@), x);
        additions_are_made_id_by_id(rescan, texts(plan.diff.added@), x);
        the_changes_of_one_id(rescan, ids, other, x);
        let steps = change_of(rescan, other);
        let n = choose|n: int| 0 <= n < steps.len() && steps[n] == x;
        assert(texts(plan.diff.enabled_changes@).contains(other) <==> rescan.switches()(other));
        assert(rescan.switched(other));
    }
}

/// A module that the file has and that does not run is added as its record has it,
/// and no other is added.
pub proof fn an_addition_is_made_by_its_record(
    windows: bool,
    running: &Vec<RunningModule>,
    configured: &Vec<ConfiguredModule>,
    r: Result<RescanPlan, String>,
    i: int,
    j: int,
    started: ModuleSpec,
)
    requires
        call_ensures(reconcile_supervised_modules, (windows, running, configured, false), r),
        r is Ok,
        last_configured(configured@, i),
        call_ensures(ConfiguredModule::module_spec, (&configured@[i],), started),
    ensures
        !is_running(running@, configured@[i].module_id@) ==> exists|k: int|
            0 <= k < r->Ok_0.actions@.len() && adds_module(
                #[trigger] r->Ok_0.actions@[k],
                configured@[i],
                started.env@,
            ),
        0 <= j < r->Ok_0.actions@.len() ==> (r->Ok_0.actions@[j] matches RescanAction::Add {
            module_id,
            ..
        } ==> !is_running(running@, module_id@) && is_configured(configured@, module_id@) && (
        module_id@ == configured@[i].module_id@ ==> adds_module(
            r->Ok_0.actions@[j],
            configured@[i],
            started.env@,
        ))),
{
    let plan = r->Ok_0;
    let m = configured@[i];
    let id = m.module_id@;
    let rescan = Rescan { windows, configured: module_views(configured@), running: running@ };
    let ids = texts(plan.configured@);
    let added = texts(plan.diff.added@);
    the_last_record_counts(configured@, i);
    a_running_module_is_found_where_there_is_one(running@, id);
    let wanted = ActionView::Add {
        module_id: id,
        spec: spec_of(m@),
        enabled: m.enabled,
        health: m@.health,
        drain_timeout_ms: m.drain_timeout_ms,
        restart: m@.restart,
    };
    assert(started@ == spec_of(m@));
    assert(addition_of(rescan, id) == wanted);
    assert(added.contains(id) <==> rescan.additions()(id));
    a_step_is_of_one_part(plan, rescan, wanted);
    additions_are_made_id_by_id(rescan, added, wanted);
    assert forall|k: int|
        0 <= k < plan.actions@.len() && (#[trigger] plan.actions@[k])@
            == wanted implies adds_module(plan.actions@[k], m, started.env@) by {
        let spec = plan.actions@[k]->Add_spec;
        lists_differ_by_their_texts(spec.args@, m.args@);
        lists_differ_by_their_texts(spec.reserved_prefixes@, m.reserved_prefixes@);
        variables_differ_by_their_texts(spec.env@, started.env@);
    }
    if !is_running(running@, id) {
        let k = choose|k: int| 0 <= k < added.len() && added[k] == id;
        assert(added.contains(id));
        assert(addition_of(rescan, added[k]) == wanted);
    }
    if 0 <= j < plan.actions@.len() && plan.actions@[j] is Add {
        let x = plan.actions@[j]@;
        let other = x->Add_module_id;
        a_step_is_of_one_part(plan, rescan, x);
        removals_are_made_id_by_id(texts(plan.diff.removed@), x);
        additions_are_made_id_by_id(rescan, added, x);
        changes_are_made_id_by_id(rescan, ids, x);
        if change_actions(rescan, ids).contains(x) {
            let k = choose|k: int|
                0 <= k < ids.len() && change_of(rescan, #[trigger] ids[k]).contains(x);
            let steps = change_of(rescan, ids[k]);
            let n = choose|n: int| 0 <= n < steps.len() && steps[n] == x;
            assert(false);
        }
        let k = choose|k: int| 0 <= k < added.len() && addition_of(rescan, #[trigger] added[k]) == x;
        assert(added[k] == other);
        assert(added.contains(other));
        assert(added.contains(other) <==> rescan.additions()(other));
        a_running_module_is_found_where_there_is_one(running@, other);
        a_record_is_found_where_there_is_one(configured@, other);
        if other == id {
            assert(x == wanted);
        }
    }
}

/// A module that runs and that the file does not have is stopped, noted as removed and
/// forgotten, and no other is.
pub proof fn a_removal_is_made_in_full(
    windows: bool,
    running: &Vec<RunningModule>,
    configured: &Vec<ConfiguredModule>,
    r: Result<RescanPlan, String>,
    id: Seq<char>,
)
    requires
        call_ensures(reconcile_supervised_modules, (windows, running, configured, false), r),
        r is Ok,
    ensures
        ({
            let gone = is_running(running@, id) && !is_configured(configured@, id);
            let actions = r->Ok_0.actions@;
            &&& gone <==> exists|k: int|
                0 <= k < actions.len() && (#[trigger] actions[k] matches RescanAction::Retire {
                    module_id,
                } && module_id@ == id)
            &&& gone <==> exists|k: int|
                0 <= k < actions.len() && (
                #[trigger] actions[k] matches RescanAction::RecordRemoval { module_id }
                    && module_id@ == id)
            &&& gone <==> exists|k: int|
                0 <= k < actions.len() && (#[trigger] actions[k] matches RescanAction::Forget {
                    module_id,
                } && module_id@ == id)
        }),
{
    let plan = r->Ok_0;
    let actions = plan.actions@;
    let rescan = Rescan { windows, configured: module_views(configured@), running: running@ };
    let ids = texts(plan.configured@);
    let removed = texts(plan.diff.removed@);
    let added = texts(plan.diff.added@);
    a_record_is_found_where_there_is_one(configured@, id);
    a_running_module_is_found_where_there_is_one(running@, id);
    assert(removed.contains(id) <==> rescan.removals()(id));
    assert forall|x: ActionView|
        #![trigger removal_actions(removed).contains(x)]
        (x is Retire || x is RecordRemoval || x is Forget) implies !change_actions(
        rescan,
        ids,
    ).contains(x) && !addition_actions(rescan, added).contains(x) by {
        changes_are_made_id_by_id(rescan, ids, x);
        additions_are_made_id_by_id(rescan, added, x);
        if change_actions(rescan, ids).contains(x) {
            let k = choose|k: int|
                0 <= k < ids.len() && change_of(rescan, #[trigger] ids[k]).contains(x);
            let steps = change_of(rescan, ids[k]);
            let n = choose|n: int| 0 <= n < steps.len() && steps[n] == x;
            assert(false);
        }
    }
    let a = ActionView::Retire { module_id: id };
    let b = ActionView::RecordRemoval { module_id: id };
    let c = ActionView::Forget { module_id: id };
    a_step_is_of_one_part(plan, rescan, a);
    a_step_is_of_one_part(plan, rescan, b);
    a_step_is_of_one_part(plan, rescan, c);
    removals_are_made_id_by_id(removed, a);
    removals_are_made_id_by_id(removed, b);
    removals_are_made_id_by_id(removed, c);
    assert forall|k: int| 0 <= k < actions.len() implies {
        &&& (#[trigger] actions[k])@ == a <==> (actions[k] matches RescanAction::Retire {
            module_id,
        } && module_id@ == id)
        &&& actions[k]@ == b <==> (actions[k] matches RescanAction::RecordRemoval { module_id }
            && module_id@ == id)
        &&& actions[k]@ == c <==> (actions[k] matches RescanAction::Forget { module_id }
            && module_id@ == id)
    } by {}
}

/// A rescan is planned exactly where every running module could be read; else it names
/// the first that could not, and whether its configuration or its status failed.
pub proof fn a_rescan_names_the_first_module_it_cannot_read(
    windows: bool,
    running: &Vec<RunningModule>,
    configured: &Vec<ConfiguredModule>,
    preview: bool,
    r: Result<RescanPlan, String>,
    j: int,
)
    requires
        call_ensures(reconcile_supervised_modules, (windows, running, configured, preview), r),
    ensures
        (forall|k: int|
            0 <= k < running@.len() ==> (#[trigger] running@[k]).configuration is Ok
                && running@[k].enabled is Ok) ==> r is Ok,
        r is Ok && 0 <= j < running@.len() ==> running@[j].configuration is Ok
            && running@[j].enabled is Ok,
        preview && r is Ok ==> r->Ok_0.actions@.len() == 0,
        0 <= j < running@.len() && (forall|k: int|
            0 <= k < j ==> (#[trigger] running@[k]).configuration is Ok && running@[k].enabled
                is Ok) ==> {
            let id = running@[j].module_id@;
            &&& running@[j].configuration matches Err(text) ==> r is Err && r->Err_0@
                == "failed to read configuration for module_id '"@ + id + "': "@ + text@
            &&& running@[j].configuration is Ok ==> (running@[j].enabled matches Err(text) ==> r
                is Err && r->Err_0@ == "failed to read status for module_id '"@ + id + "': "@
                + text@)
        },
{
    let rule = reading_rule();
    no_problem_means_all_pass(running@, rule);
    if r is Ok && 0 <= j < running@.len() {
        every_reading_came_through(running@, j);
    }
    if preview && r is Ok {
        assert(action_views(r->Ok_0.actions@).len() == r->Ok_0.actions@.len());
    }
    if forall|k: int|
        0 <= k < running@.len() ==> (#[trigger] running@[k]).configuration is Ok
            && running@[k].enabled is Ok {
        assert forall|k: int| 0 <= k < running@.len() implies rule(
            #[trigger] running@[k],
        ) is None by {}
    }
    if 0 <= j < running@.len() && (forall|k: int|
        0 <= k < j ==> (#[trigger] running@[k]).configuration is Ok && running@[k].enabled is Ok)
        && (running@[j].configuration is Err || running@[j].enabled is Err) {
        let before = running@.take(j);
        assert forall|k: int| 0 <= k < before.len() implies rule(#[trigger] before[k]) is None by {
            assert(before[k] == running@[k]);
        }
        no_problem_means_all_pass(before, rule);
        assert(rule(running@[j]) is Some);
        problem_found(running@, rule, j);
    }
}

/// The steps of a plan are taken one after the other; one that failed ends the rescan,
/// with the module and what was being done to it in the answer.
pub proof fn a_failed_step_ends_the_rescan(
    actions: &Vec<RescanAction>,
    taken: usize,
    failed: Option<String>,
    r: RescanNext,
)
    requires
        call_ensures(rescan_next, (actions, taken, failed), r),
    ensures
        failed is None && taken < actions@.len() ==> r == RescanNext::Take(taken),
        failed is None && taken >= actions@.len() ==> r is Done,
        failed matches Some(text) ==> (0 < taken <= actions@.len() ==> {
            let action = actions@[taken - 1];
            &&& r is Failed
            &&& action matches RescanAction::Retire { module_id } ==> tells(
                r->Failed_0,
                "rescan_failed"@,
                "failed to retire module_id '"@ + module_id@ + "' during rescan: "@ + text@,
            )
            &&& action matches RescanAction::Update { module_id, .. } ==> tells(
                r->Failed_0,
                "rescan_failed"@,
                "failed to update module_id '"@ + module_id@
                    + "' configuration during rescan: "@ + text@,
            )
            &&& action matches RescanAction::SetEnabled { module_id, enabled } ==> tells(
                r->Failed_0,
                "rescan_failed"@,
                "failed to apply module_id '"@ + module_id@ + "' enabled="@ + (if enabled {
                    "true"@
                } else {
                    "false"@
                }) + " during rescan: "@ + text@,
            )
            &&& action matches RescanAction::Add { module_id, .. } ==> tells(
                r->Failed_0,
                "rescan_failed"@,
                "failed to add module_id '"@ + module_id@ + "' during rescan: "@ + text@,
            )
        }),
{
}

/// Where a step stands in a plan: removals, then changes, then additions.
pub open spec fn turn(action: RescanAction) -> int {
    match action {
        RescanAction::Retire { .. } => 0,
        RescanAction::RecordRemoval { .. } => 0,
        RescanAction::Forget { .. } => 0,
        RescanAction::Update { .. } => 1,
        RescanAction::SetEnabled { .. } => 1,
        RescanAction::Add { .. } => 2,
    }
}

proof fn a_change_is_an_update_or_a_switch(rescan: Rescan, ids: Seq<Seq<char>>, j: int)
    requires
        0 <= j < change_actions(rescan, ids).len(),
    ensures
        change_actions(rescan, ids)[j] is Update || change_actions(rescan, ids)[j] is SetEnabled,
    decreases ids.len(),
{
    let before = change_actions(rescan, ids.drop_last());
    if j < before.len() {
        a_change_is_an_update_or_a_switch(rescan, ids.drop_last(), j);
    } else {
        let steps = change_of(rescan, ids.last());
        assert(change_actions(rescan, ids)[j] == steps[j - before.len()]);
    }
}

proof fn a_removal_is_one_of_three(ids: Seq<Seq<char>>, j: int)
    requires
        0 <= j < removal_actions(ids).len(),
    ensures
        removal_actions(ids)[j] is Retire || removal_actions(ids)[j] is RecordRemoval
            || removal_actions(ids)[j] is Forget,
    decreases ids.len(),
{
    let before = removal_actions(ids.drop_last());
    if j < before.len() {
        assert(removal_actions(ids)[j] == before[j]);
        a_removal_is_one_of_three(ids.drop_last(), j);
    }
}

/// The steps of a plan come in their order: what goes, what changes, what is new; and
/// every list of a plan is in the order of the ids.
pub proof fn what_goes_comes_before_what_is_new(
    windows: bool,
    running: &Vec<RunningModule>,
    configured: &Vec<ConfiguredModule>,
    r: Result<RescanPlan, String>,
    j: int,
    k: int,
)
    requires
        call_ensures(reconcile_supervised_modules, (windows, running, configured, false), r),
        r is Ok,
        0 <= j <= k,
    ensures
        k < r->Ok_0.actions@.len() ==> turn(r->Ok_0.actions@[j]) <= turn(r->Ok_0.actions@[k]),
        j < k < r->Ok_0.diff.added@.len() ==> before(
            r->Ok_0.diff.added@[j]@,
            r->Ok_0.diff.added@[k]@,
        ),
        j < k < r->Ok_0.diff.removed@.len() ==> before(
            r->Ok_0.diff.removed@[j]@,
            r->Ok_0.diff.removed@[k]@,
        ),
        j < k < r->Ok_0.diff.changed_pending_reload@.len() ==> before(
            r->Ok_0.diff.changed_pending_reload@[j]@,
            r->Ok_0.diff.changed_pending_reload@[k]@,
        ),
        j < k < r->Ok_0.diff.enabled_changes@.len() ==> before(
            r->Ok_0.diff.enabled_changes@[j]@,
            r->Ok_0.diff.enabled_changes@[k]@,
        ),
{
    let plan = r->Ok_0;
    let rescan = Rescan { windows, configured: module_views(configured@), running: running@ };
    let first = removal_actions(texts(plan.diff.removed@));
    let second = change_actions(rescan, texts(plan.configured@));
    let third = addition_actions(rescan, texts(plan.diff.added@));
    let all = rescan_actions(rescan, plan);
    let views = action_views(plan.actions@);
    assert(views.len() == plan.actions@.len());
    if k < plan.actions@.len() {
        assert(views[j] == plan.actions@[j]@ && views[k] == plan.actions@[k]@);
        if k < first.len() {
            assert(all[k] == first[k]);
            assert(all[j] == first[j]);
            a_removal_is_one_of_three(texts(plan.diff.removed@), k);
            a_removal_is_one_of_three(texts(plan.diff.removed@), j);
        } else if k < first.len() + second.len() {
            assert(all[k] == second[k - first.len()]);
            a_change_is_an_update_or_a_switch(rescan, texts(plan.configured@), k - first.len());
            if j < first.len() {
                assert(all[j] == first[j]);
                a_removal_is_one_of_three(texts(plan.diff.removed@), j);
            } else {
                assert(all[j] == second[j - first.len()]);
                a_change_is_an_update_or_a_switch(
                    rescan,
                    texts(plan.configured@),
                    j - first.len(),
                );
            }
        } else {
            assert(all[k] == third[k - first.len() - second.len()]);
            assert(third[k - first.len() - second.len()] is Add);
        }
    }
    let diff = plan.diff;
    if j < k < diff.added@.len() {
        assert(texts(diff.added@)[j] == diff.added@[j]@ && texts(diff.added@)[k]
            == diff.added@[k]@);
    }
    if j < k < diff.removed@.len() {
        assert(texts(diff.removed@)[j] == diff.removed@[j]@ && texts(diff.removed@)[k]
            == diff.removed@[k]@);
    }
    if j < k < diff.changed_pending_reload@.len() {
        assert(texts(diff.changed_pending_reload@)[j] == diff.changed_pending_reload@[j]@ && texts(
            diff.changed_pending_reload@,
        )[k] == diff.changed_pending_reload@[k]@);
    }
    if j < k < diff.enabled_changes@.len() {
        assert(texts(diff.enabled_changes@)[j] == diff.enabled_changes@[j]@ && texts(
            diff.enabled_changes@,
        )[k] == diff.enabled_changes@[k]@);
    }
}

} // verus!
