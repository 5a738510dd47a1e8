//! What holds of every rescan.
use crate::control::rescan::plan::{
    action_views, addition_actions, addition_of, change_actions, change_of, one_list_for_a_kind,
    plans, removal_actions, rescan_actions, ActionView, Rescan, RescanPlan,
};
use crate::control::rescan::{follow_up_of, CapabilityStepView};
use crate::daemon_config::document::ConfigView;
use crate::daemon_config::module::enabled_modules;
use crate::text::texts;
use vstd::prelude::*;

verus! {

/// A preview finds exactly what the rescan that follows it finds.
pub proof fn a_preview_tells_the_truth(previewed: RescanPlan, executed: RescanPlan, rescan: Rescan)
    requires
        plans(previewed, rescan, true),
        plans(executed, rescan, false),
    ensures
        texts(previewed.diff.added@) == texts(executed.diff.added@),
        texts(previewed.diff.removed@) == texts(executed.diff.removed@),
        texts(previewed.diff.changed_pending_reload@) == texts(
            executed.diff.changed_pending_reload@,
        ),
        texts(previewed.diff.enabled_changes@) == texts(executed.diff.enabled_changes@),
        previewed.diff.unchanged == executed.diff.unchanged,
        previewed.actions@.len() == 0,
{
    let a = previewed.diff;
    let b = executed.diff;
    one_list_for_a_kind(texts(a.added@), texts(b.added@), rescan.additions());
    one_list_for_a_kind(texts(a.removed@), texts(b.removed@), rescan.removals());
    one_list_for_a_kind(
        texts(a.changed_pending_reload@),
        texts(b.changed_pending_reload@),
        rescan.changes(),
    );
    one_list_for_a_kind(texts(a.enabled_changes@), texts(b.enabled_changes@), rescan.switches());
    assert(action_views(previewed.actions@).len() == previewed.actions@.len());
}

/// The ids that the supervisor holds after a step.
pub open spec fn after_action(held: Set<Seq<char>>, action: ActionView) -> Set<Seq<char>> {
    match action {
        ActionView::Forget { module_id } => held.remove(module_id),
        ActionView::Add { module_id, .. } => held.insert(module_id),
        _ => held,
    }
}

/// The ids that the supervisor holds after some steps.
pub open spec fn after_actions(held: Set<Seq<char>>, actions: Seq<ActionView>) -> Set<Seq<char>>
    decreases actions.len(),
{
    if actions.len() == 0 {
        held
    } else {
        after_action(after_actions(held, actions.drop_last()), actions.last())
    }
}

proof fn after_both(held: Set<Seq<char>>, a: Seq<ActionView>, b: Seq<ActionView>)
    ensures
        after_actions(held, a + b) == after_actions(after_actions(held, a), b),
    decreases b.len(),
{
    if b.len() == 0 {
        assert(a + b =~= a);
    } else {
        assert((a + b).drop_last() =~= a + b.drop_last());
        after_both(held, a, b.drop_last());
    }
}

proof fn after_removals(held: Set<Seq<char>>, ids: Seq<Seq<char>>)
    ensures
        forall|id: Seq<char>| #[trigger]
            after_actions(held, removal_actions(ids)).contains(id) <==> held.contains(id)
                && !ids.contains(id),
    decreases ids.len(),
{
    if ids.len() > 0 {
        let rest = ids.drop_last();
        let module_id = ids.last();
        after_removals(held, rest);
        let steps = seq![
            ActionView::Retire { module_id },
            ActionView::RecordRemoval { module_id },
            ActionView::Forget { module_id },
        ];
        let then_held = after_actions(held, removal_actions(rest));
        after_both(held, removal_actions(rest), steps);
        assert(steps.drop_last() =~= seq![
            ActionView::Retire { module_id },
            ActionView::RecordRemoval { module_id },
        ]);
        assert(steps.drop_last().drop_last() =~= seq![ActionView::Retire { module_id }]);
        assert(steps.drop_last().drop_last().drop_last() =~= Seq::empty());
        reveal_with_fuel(after_actions, 4);
        assert(after_actions(then_held, steps) == then_held.remove(module_id));
        assert forall|id: Seq<char>| #[trigger] ids.contains(id) <==> rest.contains(id) || id
            == module_id by {
            if rest.contains(id) {
                let k = choose|k: int| 0 <= k < rest.len() && rest[k] == id;
                assert(ids[k] == id);
            }
            assert(ids[ids.len() - 1] == module_id);
            if ids.contains(id) && id != module_id {
                let k = choose|k: int| 0 <= k < ids.len() && ids[k] == id;
                assert(rest[k] == id);
            }
        }
    }
}

proof fn after_changes(held: Set<Seq<char>>, rescan: Rescan, ids: Seq<Seq<char>>)
    ensures
        after_actions(held, change_actions(rescan, ids)) == held,
    decreases ids.len(),
{
    if ids.len() > 0 {
        let steps = change_of(rescan, ids.last());
        after_changes(held, rescan, ids.drop_last());
        after_both(held, change_actions(rescan, ids.drop_last()), steps);
        reveal_with_fuel(after_actions, 3);
        if steps.len() == 2 {
            assert(steps.drop_last().drop_last() =~= Seq::empty());
        } else if steps.len() == 1 {
            assert(steps.drop_last() =~= Seq::empty());
        }
    }
}

proof fn after_additions(held: Set<Seq<char>>, rescan: Rescan, ids: Seq<Seq<char>>)
    ensures
        forall|id: Seq<char>| #[trigger]
            after_actions(held, addition_actions(rescan, ids)).contains(id) <==> held.contains(id)
                || ids.contains(id),
    decreases ids.len(),
{
    if ids.len() > 0 {
        let rest = ids.drop_last();
        after_additions(held, rescan, rest);
        assert(addition_actions(rescan, ids).drop_last() =~= addition_actions(rescan, rest));
        assert(addition_actions(rescan, ids).last() == addition_of(rescan, ids.last()));
        assert forall|id: Seq<char>| #[trigger] ids.contains(id) <==> rest.contains(id) || id
            == ids.last() by {
            if rest.contains(id) {
                let k = choose|k: int| 0 <= k < rest.len() && rest[k] == id;
                assert(ids[k] == id);
            }
            assert(ids[ids.len() - 1] == ids.last());
            if ids.contains(id) && id != ids.last() {
                let k = choose|k: int| 0 <= k < ids.len() && ids[k] == id;
                assert(rest[k] == id);
            }
        }
        let now = after_actions(held, addition_actions(rescan, ids));
        let was = after_actions(held, addition_actions(rescan, rest));
        assert(now == was.insert(ids.last()));
        assert forall|id: Seq<char>| #[trigger] now.contains(id) <==> held.contains(id)
            || ids.contains(id) by {
            assert(was.contains(id) <==> held.contains(id) || rest.contains(id));
        }
    } else {
        assert(addition_actions(rescan, ids) =~= Seq::empty());
    }
}

/// A rescan whose steps are all taken leaves the supervisor with the configured
/// modules and no other.
pub proof fn a_rescan_ends_at_the_configuration(
    plan: RescanPlan,
    rescan: Rescan,
    held: Set<Seq<char>>,
    id: Seq<char>,
)
    requires
        plans(plan, rescan, false),
        forall|id: Seq<char>| #[trigger] held.contains(id) <==> rescan.runs(id),
    ensures
        after_actions(held, action_views(plan.actions@)).contains(id) <==> rescan.wants(id),
{
    let removed = texts(plan.diff.removed@);
    let ids = texts(plan.configured@);
    let added = texts(plan.diff.added@);
    let first = removal_actions(removed);
    let second = change_actions(rescan, ids);
    let third = addition_actions(rescan, added);
    after_both(held, first + second, third);
    after_both(held, first, second);
    let mid = after_actions(held, first);
    after_removals(held, removed);
    after_changes(mid, rescan, ids);
    after_additions(mid, rescan, added);
    assert(removed.contains(id) <==> rescan.removals()(id));
    assert(added.contains(id) <==> rescan.additions()(id));
    assert(held.contains(id) <==> rescan.runs(id));
    assert(mid.contains(id) <==> held.contains(id) && !removed.contains(id));
}

proof fn removals_come_in_threes(ids: Seq<Seq<char>>, j: int)
    requires
        0 <= j < removal_actions(ids).len(),
        removal_actions(ids)[j] is Forget,
    ensures
        j >= 2,
        removal_actions(ids)[j - 1] == (ActionView::RecordRemoval {
            module_id: removal_actions(ids)[j]->Forget_module_id,
        }),
        removal_actions(ids)[j - 2] == (ActionView::Retire {
            module_id: removal_actions(ids)[j]->Forget_module_id,
        }),
    decreases ids.len(),
{
    let rest = removal_actions(ids.drop_last());
    if j < rest.len() {
        assert(removal_actions(ids)[j] == rest[j]);
        removals_come_in_threes(ids.drop_last(), j);
    }
}

proof fn changes_forget_nothing(rescan: Rescan, ids: Seq<Seq<char>>, j: int)
    requires
        0 <= j < change_actions(rescan, ids).len(),
    ensures
        change_actions(rescan, ids)[j] !is Forget,
    decreases ids.len(),
{
    let rest = change_actions(rescan, ids.drop_last());
    if j < rest.len() {
        changes_forget_nothing(rescan, ids.drop_last(), j);
    } else {
        assert(change_actions(rescan, ids)[j] == change_of(rescan, ids.last())[j - rest.len()]);
    }
}

/// A module is forgotten only after its process has been stopped and its removal
/// has been noted.
pub proof fn a_removal_is_noted_before_it_is_forgotten(plan: RescanPlan, rescan: Rescan, j: int)
    requires
        plans(plan, rescan, false),
        0 <= j < plan.actions@.len(),
        plan.actions@[j]@ is Forget,
    ensures
        ({
            let module_id = plan.actions@[j]@->Forget_module_id;
            &&& j >= 2
            &&& plan.actions@[j - 1]@ == (ActionView::RecordRemoval { module_id })
            &&& plan.actions@[j - 2]@ == (ActionView::Retire { module_id })
        }),
{
    let removed = texts(plan.diff.removed@);
    let ids = texts(plan.configured@);
    let first = removal_actions(removed);
    let second = change_actions(rescan, ids);
    let all = rescan_actions(rescan, plan);
    assert(action_views(plan.actions@)[j] == plan.actions@[j]@);
    if j < first.len() {
        assert(all[j] == first[j]);
        removals_come_in_threes(removed, j);
        assert(action_views(plan.actions@)[j - 1] == plan.actions@[j - 1]@);
        assert(action_views(plan.actions@)[j - 2] == plan.actions@[j - 2]@);
        assert(all[j - 1] == first[j - 1]);
        assert(all[j - 2] == first[j - 2]);
    } else if j < first.len() + second.len() {
        assert(all[j] == second[j - first.len()]);
        changes_forget_nothing(rescan, ids, j - first.len());
    } else {
        let third = addition_actions(rescan, texts(plan.diff.added@));
        assert(action_views(plan.actions@).len() == plan.actions@.len());
        assert(all[j] == third[j - first.len() - second.len()]);
        assert(third[j - first.len() - second.len()] is Add);
    }
}

/// The capability evaluator takes a configuration over when a rescan was carried
/// through, and only then: it is told of every module of the file and of every
/// reservation, and then looks at the requirements anew.
pub proof fn only_an_executed_rescan_reaches_the_evaluator(config: ConfigView, preview: bool)
    ensures
        preview ==> follow_up_of(config, preview).len() == 0,
        !preview ==> {
            let steps = follow_up_of(config, preview);
            &&& steps.len() == 3
            &&& steps[0] == (CapabilityStepView::Configure {
                modules: enabled_modules(config.modules),
                reserved_capabilities: config.reserved_capabilities,
            })
            &&& steps[1] is WakeDeadlines
            &&& steps[2] is RefreshRequirements
        },
{
}

/// Every id that runs or is configured is added, removed, changed, switched or
/// kept: added and removed ones are nothing else, and kept ones are neither
/// changed nor switched.
pub proof fn a_rescan_leaves_no_module_out(rescan: Rescan, id: Seq<char>)
    ensures
        rescan.runs(id) || rescan.wants(id) <==> rescan.added(id) || rescan.removed(id)
            || rescan.changed(id) || rescan.switched(id) || rescan.kept(id),
        !(rescan.added(id) && rescan.removed(id)),
        rescan.added(id) || rescan.removed(id) ==> !rescan.changed(id) && !rescan.switched(id)
            && !rescan.kept(id),
        rescan.kept(id) ==> !rescan.changed(id) && !rescan.switched(id),
{
}

} // verus!
