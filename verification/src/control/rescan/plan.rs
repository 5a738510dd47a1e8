//! What a rescan finds, and the steps that it takes.
use crate::control::wire::{control_error, error_of, ErrorBody};
use crate::daemon_config::module::{
    module_views, same_start, spec_of, ConfiguredModule, ModuleSpec, ModuleSpecView, ModuleView,
};
use crate::daemon_config::policy::{HealthConfig, HealthView, RestartPolicy, RestartView};
use crate::daemon_config::validate::tells;
use crate::problems::{first_problem, no_problem_means_all_pass, passes_on, problem_found};
use crate::text::{
    before, before_irreflexive, before_transitive, bool_text, bool_word, contains_text, texts,
};
use crate::text_map::{ascending, TextMap};
use vstd::prelude::*;

verus! {

/// What a running module was started from, or why that cannot be read.
#[derive(Debug)]
pub struct RunningModule {
    pub module_id: String,
    pub configuration: Result<(ModuleSpec, HealthConfig), String>,
    pub enabled: Result<bool, String>,
}

/// What a running module was started from.
#[verifier::ext_equal]
pub struct RunningView {
    pub spec: ModuleSpecView,
    pub health: HealthView,
    pub enabled: bool,
}

/// What is wrong with the reading of a running module.
pub open spec fn reading_problem(m: RunningModule) -> Option<Seq<char>> {
    match m.configuration {
        Err(text) => Some(
            "failed to read configuration for module_id '"@ + m.module_id@ + "': "@ + text@,
        ),
        Ok(_) => match m.enabled {
            Err(text) => Some(
                "failed to read status for module_id '"@ + m.module_id@ + "': "@ + text@,
            ),
            Ok(_) => None,
        },
    }
}

/// The rule for the running modules.
pub open spec fn reading_rule() -> spec_fn(RunningModule) -> Option<Seq<char>> {
    |m: RunningModule| reading_problem(m)
}

fn check_reading(m: &RunningModule) -> (r: Option<String>)
    ensures
        tells(r, reading_problem(*m)),
{
    if let Err(text) = &m.configuration {
        return Some(
            String::from_str("failed to read configuration for module_id '").concat(
                m.module_id.as_str(),
            ).concat("': ").concat(text.as_str()),
        );
    }
    if let Err(text) = &m.enabled {
        return Some(
            String::from_str("failed to read status for module_id '").concat(
                m.module_id.as_str(),
            ).concat("': ").concat(text.as_str()),
        );
    }
    None
}

fn check_readings(running: &Vec<RunningModule>) -> (r: Option<String>)
    ensures
        tells(r, first_problem(running@, reading_rule())),
{
    let ghost all = running@;
    let ghost rule = reading_rule();
    let mut i: usize = 0;
    while i < running.len()
        invariant
            i <= running.len(),
            all == running@,
            rule == reading_rule(),
            first_problem(all.take(i as int), rule) is None,
        decreases running.len() - i,
    {
        let problem: Option<String> = check_reading(&running[i]);
        proof {
            assert(rule(all[i as int]) == reading_problem(all[i as int]));
        }
        if problem.is_some() {
            proof {
                problem_found(all, rule, i as int);
            }
            return problem;
        }
        proof {
            passes_on(all, rule, i as int);
        }
        i += 1;
    }
    proof {
        assert(all.take(i as int) =~= all);
    }
    None
}

/// The module that the list holds under the id; of two, the later.
pub open spec fn configured_as(modules: Seq<ModuleView>, id: Seq<char>) -> Option<ModuleView>
    decreases modules.len(),
{
    if modules.len() == 0 {
        None
    } else if modules.last().module_id == id {
        Some(modules.last())
    } else {
        configured_as(modules.drop_last(), id)
    }
}

/// What the reading of a running module says.
pub open spec fn reading_of(m: RunningModule) -> RunningView {
    RunningView {
        spec: m.configuration->Ok_0.0@,
        health: m.configuration->Ok_0.1@,
        enabled: m.enabled->Ok_0,
    }
}

/// What the running module of the id was started from; of two, the later.
pub open spec fn running_as(running: Seq<RunningModule>, id: Seq<char>) -> Option<RunningView>
    decreases running.len(),
{
    if running.len() == 0 {
        None
    } else if running.last().module_id@ == id {
        Some(reading_of(running.last()))
    } else {
        running_as(running.drop_last(), id)
    }
}

/// The two lists that a rescan compares.
pub struct Rescan {
    /// Programs are paths of Windows.
    pub windows: bool,
    pub configured: Seq<ModuleView>,
    pub running: Seq<RunningModule>,
}

impl Rescan {
    /// Configured under the id.
    pub open spec fn wants(self, id: Seq<char>) -> bool {
        configured_as(self.configured, id) is Some
    }

    /// Running under the id.
    pub open spec fn runs(self, id: Seq<char>) -> bool {
        running_as(self.running, id) is Some
    }

    /// Configured and not running.
    pub open spec fn added(self, id: Seq<char>) -> bool {
        self.wants(id) && !self.runs(id)
    }

    /// Running and no longer configured.
    pub open spec fn removed(self, id: Seq<char>) -> bool {
        self.runs(id) && !self.wants(id)
    }

    /// Running from something else than is configured.
    pub open spec fn changed(self, id: Seq<char>) -> bool {
        &&& self.wants(id)
        &&& self.runs(id)
        &&& {
            let m = configured_as(self.configured, id)->0;
            let now = running_as(self.running, id)->0;
            !same_start(self.windows, now.spec, spec_of(m)) || now.health != m.health
        }
    }

    /// Enabled where it is configured disabled, or the other way about.
    pub open spec fn switched(self, id: Seq<char>) -> bool {
        self.wants(id) && self.runs(id) && running_as(self.running, id)->0.enabled != configured_as(
            self.configured,
            id,
        )->0.enabled
    }

    /// Running just as configured.
    pub open spec fn kept(self, id: Seq<char>) -> bool {
        self.wants(id) && self.runs(id) && !self.changed(id) && !self.switched(id)
    }

    /// The ids that are configured.
    pub open spec fn wanted(self) -> spec_fn(Seq<char>) -> bool {
        |id: Seq<char>| self.wants(id)
    }

    /// The ids that run.
    pub open spec fn present(self) -> spec_fn(Seq<char>) -> bool {
        |id: Seq<char>| self.runs(id)
    }

    /// The ids to add.
    pub open spec fn additions(self) -> spec_fn(Seq<char>) -> bool {
        |id: Seq<char>| self.added(id)
    }

    /// The ids to remove.
    pub open spec fn removals(self) -> spec_fn(Seq<char>) -> bool {
        |id: Seq<char>| self.removed(id)
    }

    /// The ids to reconfigure.
    pub open spec fn changes(self) -> spec_fn(Seq<char>) -> bool {
        |id: Seq<char>| self.changed(id)
    }

    /// The ids to enable or disable.
    pub open spec fn switches(self) -> spec_fn(Seq<char>) -> bool {
        |id: Seq<char>| self.switched(id)
    }

    /// The ids to leave alone.
    pub open spec fn keeps(self) -> spec_fn(Seq<char>) -> bool {
        |id: Seq<char>| self.kept(id)
    }
}

/// The list holds the ids of the kind, each once, in ascending order.
pub open spec fn lists(ids: Seq<Seq<char>>, kind: spec_fn(Seq<char>) -> bool) -> bool {
    ascending(ids) && forall|id: Seq<char>| #[trigger] ids.contains(id) <==> kind(id)
}

/// There is one such list for a kind.
pub proof fn one_list_for_a_kind(
    a: Seq<Seq<char>>,
    b: Seq<Seq<char>>,
    kind: spec_fn(Seq<char>) -> bool,
)
    requires
        lists(a, kind),
        lists(b, kind),
    ensures
        a == b,
{
    same_elements_same_list(a, b);
}

proof fn same_elements_same_list(a: Seq<Seq<char>>, b: Seq<Seq<char>>)
    requires
        ascending(a),
        ascending(b),
        forall|id: Seq<char>| #[trigger] a.contains(id) <==> b.contains(id),
    ensures
        a == b,
    decreases a.len(),
{
    if a.len() == 0 {
        if b.len() > 0 {
            assert(b.contains(b[0]));
            assert(a.contains(b[0]));
        }
        assert(a =~= b);
    } else {
        assert(a.contains(a[0]));
        assert(b.contains(a[0]));
        let x = a.last();
        assert(a.contains(x));
        assert(b.contains(x));
        let j = choose|j: int| 0 <= j < b.len() && b[j] == x;
        let y = b.last();
        assert(b.contains(y));
        assert(a.contains(y));
        let i = choose|i: int| 0 <= i < a.len() && a[i] == y;
        if j < b.len() - 1 {
            assert(before(b[j], b[b.len() - 1]));
            if i < a.len() - 1 {
                assert(before(a[i], a[a.len() - 1]));
                before_transitive(x, y, x);
            }
            before_irreflexive(x);
        }
        let a1 = a.drop_last();
        let b1 = b.drop_last();
        assert(x == y);
        assert forall|k: int, l: int| 0 <= k < l < a1.len() implies before(
            #[trigger] a1[k],
            #[trigger] a1[l],
        ) by {
            assert(before(a[k], a[l]));
        }
        assert forall|k: int, l: int| 0 <= k < l < b1.len() implies before(
            #[trigger] b1[k],
            #[trigger] b1[l],
        ) by {
            assert(before(b[k], b[l]));
        }
        assert forall|id: Seq<char>| #[trigger] a1.contains(id) <==> b1.contains(id) by {
            before_irreflexive(x);
            if a1.contains(id) {
                let k = choose|k: int| 0 <= k < a1.len() && a1[k] == id;
                assert(a[k] == id);
                assert(a.contains(id));
                assert(before(a[k], a[a.len() - 1]));
                assert(b.contains(id));
                let l = choose|l: int| 0 <= l < b.len() && b[l] == id;
                assert(l < b.len() - 1);
                assert(b1[l] == id);
            }
            if b1.contains(id) {
                let k = choose|k: int| 0 <= k < b1.len() && b1[k] == id;
                assert(b[k] == id);
                assert(b.contains(id));
                assert(before(b[k], b[b.len() - 1]));
                assert(a.contains(id));
                let l = choose|l: int| 0 <= l < a.len() && a[l] == id;
                assert(l < a.len() - 1);
                assert(a1[l] == id);
            }
        }
        same_elements_same_list(a1, b1);
        assert(a =~= a1.push(x));
        assert(b =~= b1.push(y));
    }
}

/// The list holds those of the keys that are of the kind, in their order.
spec fn picks(
    ids: Seq<Seq<char>>,
    keys: Seq<Seq<char>>,
    kind: spec_fn(Seq<char>) -> bool,
) -> bool {
    ascending(ids) && forall|id: Seq<char>| #[trigger]
        ids.contains(id) <==> keys.contains(id) && kind(id)
}

proof fn picks_one_more(
    ids: Seq<Seq<char>>,
    keys: Seq<Seq<char>>,
    i: int,
    kind: spec_fn(Seq<char>) -> bool,
)
    requires
        ascending(keys),
        0 <= i < keys.len(),
        picks(ids, keys.take(i), kind),
    ensures
        kind(keys[i]) ==> picks(ids.push(keys[i]), keys.take(i + 1), kind),
        !kind(keys[i]) ==> picks(ids, keys.take(i + 1), kind),
{
    let x = keys[i];
    let seen = keys.take(i);
    let now = keys.take(i + 1);
    assert forall|id: Seq<char>| #[trigger] now.contains(id) <==> seen.contains(id) || id == x by {
        if seen.contains(id) {
            let k = choose|k: int| 0 <= k < seen.len() && seen[k] == id;
            assert(now[k] == id);
        }
        if now.contains(id) && id != x {
            let k = choose|k: int| 0 <= k < now.len() && now[k] == id;
            assert(seen[k] == id);
        }
        assert(now[i] == x);
    }
    if kind(x) {
        let more = ids.push(x);
        assert forall|k: int, l: int| 0 <= k < l < more.len() implies before(
            #[trigger] more[k],
            #[trigger] more[l],
        ) by {
            if l == ids.len() {
                assert(ids.contains(ids[k]));
                assert(seen.contains(ids[k]));
                let m = choose|m: int| 0 <= m < seen.len() && seen[m] == ids[k];
                assert(before(keys[m], keys[i]));
            } else {
                assert(before(ids[k], ids[l]));
            }
        }
        assert forall|id: Seq<char>| #[trigger] more.contains(id) <==> now.contains(id) && kind(
            id,
        ) by {
            if ids.contains(id) {
                let k = choose|k: int| 0 <= k < ids.len() && ids[k] == id;
                assert(more[k] == id);
            }
            assert(more[ids.len() as int] == x);
            if more.contains(id) && id != x {
                let k = choose|k: int| 0 <= k < more.len() && more[k] == id;
                assert(ids[k] == id);
            }
        }
    }
}

proof fn picks_all(
    ids: Seq<Seq<char>>,
    keys: Seq<Seq<char>>,
    kind: spec_fn(Seq<char>) -> bool,
)
    requires
        picks(ids, keys.take(keys.len() as int), kind),
        forall|id: Seq<char>| kind(id) ==> #[trigger] keys.contains(id),
    ensures
        lists(ids, kind),
{
    assert(keys.take(keys.len() as int) =~= keys);
    assert forall|id: Seq<char>| #[trigger] ids.contains(id) <==> kind(id) by {
        if kind(id) {
            assert(keys.contains(id));
        }
    }
}

/// What a rescan finds.
#[derive(Debug)]
pub struct RescanDiff {
    pub added: Vec<String>,
    pub removed: Vec<String>,
    pub changed_pending_reload: Vec<String>,
    pub enabled_changes: Vec<String>,
    pub unchanged: u32,
}

/// How many modules are left alone.
pub open spec fn kept_count(rescan: Rescan) -> nat {
    (choose|ids: Seq<Seq<char>>| lists(ids, rescan.keeps())).len()
}

/// The findings are those of the two lists.
pub open spec fn finds(diff: RescanDiff, rescan: Rescan) -> bool {
    &&& lists(texts(diff.added@), rescan.additions())
    &&& lists(texts(diff.removed@), rescan.removals())
    &&& lists(texts(diff.changed_pending_reload@), rescan.changes())
    &&& lists(texts(diff.enabled_changes@), rescan.switches())
    &&& diff.unchanged == if kept_count(rescan) < u32::MAX {
        kept_count(rescan)
    } else {
        u32::MAX as nat
    }
}

/// A step of a rescan.
#[derive(Debug)]
pub enum RescanAction {
    /// The module's process is stopped.
    Retire { module_id: String },
    /// It is noted that the module was removed, so that an open of a route to it
    /// is told so for good.
    RecordRemoval { module_id: String },
    /// The supervisor forgets the module.
    Forget { module_id: String },
    Update {
        module_id: String,
        spec: ModuleSpec,
        health: HealthConfig,
        drain_timeout_ms: Option<u64>,
    },
    SetEnabled { module_id: String, enabled: bool },
    Add {
        module_id: String,
        spec: ModuleSpec,
        enabled: bool,
        health: HealthConfig,
        drain_timeout_ms: Option<u64>,
        restart: RestartPolicy,
    },
}

/// A [`RescanAction`] over characters.
#[verifier::ext_equal]
pub enum ActionView {
    Retire { module_id: Seq<char> },
    RecordRemoval { module_id: Seq<char> },
    Forget { module_id: Seq<char> },
    Update {
        module_id: Seq<char>,
        spec: ModuleSpecView,
        health: HealthView,
        drain_timeout_ms: Option<u64>,
    },
    SetEnabled { module_id: Seq<char>, enabled: bool },
    Add {
        module_id: Seq<char>,
        spec: ModuleSpecView,
        enabled: bool,
        health: HealthView,
        drain_timeout_ms: Option<u64>,
        restart: RestartView,
    },
}

impl View for RescanAction {
    type V = ActionView;

    open spec fn view(&self) -> ActionView {
        match *self {
            RescanAction::Retire { module_id } => ActionView::Retire { module_id: module_id@ },
            RescanAction::RecordRemoval { module_id } => ActionView::RecordRemoval {
                module_id: module_id@,
            },
            RescanAction::Forget { module_id } => ActionView::Forget { module_id: module_id@ },
            RescanAction::Update { module_id, spec, health, drain_timeout_ms } =>
                ActionView::Update {
                module_id: module_id@,
                spec: spec@,
                health: health@,
                drain_timeout_ms,
            },
            RescanAction::SetEnabled { module_id, enabled } => ActionView::SetEnabled {
                module_id: module_id@,
                enabled,
            },
            RescanAction::Add { module_id, spec, enabled, health, drain_timeout_ms, restart } =>
                ActionView::Add {
                module_id: module_id@,
                spec: spec@,
                enabled,
                health: health@,
                drain_timeout_ms,
                restart: restart@,
            },
        }
    }
}

/// The steps of a list over characters.
pub open spec fn action_views(actions: Seq<RescanAction>) -> Seq<ActionView> {
    actions.map_values(|a: RescanAction| a@)
}

/// The steps that remove modules. The removal is noted before the supervisor
/// forgets the module, so that at no moment it reads as one that never was.
pub open spec fn removal_actions(ids: Seq<Seq<char>>) -> Seq<ActionView>
    decreases ids.len(),
{
    if ids.len() == 0 {
        Seq::empty()
    } else {
        let module_id = ids.last();
        removal_actions(ids.drop_last()) + seq![
            ActionView::Retire { module_id },
            ActionView::RecordRemoval { module_id },
            ActionView::Forget { module_id },
        ]
    }
}

/// The steps for a module that runs and is configured.
pub open spec fn change_of(rescan: Rescan, module_id: Seq<char>) -> Seq<ActionView> {
    let m = configured_as(rescan.configured, module_id)->0;
    let update = if rescan.changed(module_id) {
        seq![
            ActionView::Update {
                module_id,
                spec: spec_of(m),
                health: m.health,
                drain_timeout_ms: m.drain_timeout_ms,
            },
        ]
    } else {
        Seq::empty()
    };
    let switch = if rescan.switched(module_id) {
        seq![ActionView::SetEnabled { module_id, enabled: m.enabled }]
    } else {
        Seq::empty()
    };
    update + switch
}

/// The steps for the modules that run and are configured.
pub open spec fn change_actions(rescan: Rescan, ids: Seq<Seq<char>>) -> Seq<ActionView>
    decreases ids.len(),
{
    if ids.len() == 0 {
        Seq::empty()
    } else {
        change_actions(rescan, ids.drop_last()) + change_of(rescan, ids.last())
    }
}

/// The step that adds a module.
pub open spec fn addition_of(rescan: Rescan, module_id: Seq<char>) -> ActionView {
    let m = configured_as(rescan.configured, module_id)->0;
    ActionView::Add {
        module_id,
        spec: spec_of(m),
        enabled: m.enabled,
        health: m.health,
        drain_timeout_ms: m.drain_timeout_ms,
        restart: m.restart,
    }
}

/// The steps that add modules.
pub open spec fn addition_actions(rescan: Rescan, ids: Seq<Seq<char>>) -> Seq<ActionView> {
    ids.map_values(|id: Seq<char>| addition_of(rescan, id))
}

/// What a rescan does.
#[derive(Debug)]
pub struct RescanPlan {
    pub diff: RescanDiff,
    /// The configured ids in ascending order.
    pub configured: Vec<String>,
    /// In the order in which they are taken.
    pub actions: Vec<RescanAction>,
}

/// All the steps: removals, then changes, then additions.
pub open spec fn rescan_actions(rescan: Rescan, plan: RescanPlan) -> Seq<ActionView> {
    removal_actions(texts(plan.diff.removed@)) + change_actions(rescan, texts(plan.configured@))
        + addition_actions(rescan, texts(plan.diff.added@))
}

/// The plan is that of the two lists: the findings, and no step of a preview.
pub open spec fn plans(plan: RescanPlan, rescan: Rescan, preview: bool) -> bool {
    &&& finds(plan.diff, rescan)
    &&& lists(texts(plan.configured@), rescan.wanted())
    &&& action_views(plan.actions@) == if preview {
        Seq::empty()
    } else {
        rescan_actions(rescan, plan)
    }
}

pub(crate) fn index_configured(modules: &Vec<ConfiguredModule>) -> (r: TextMap<usize>)
    ensures
        r.wf(),
        forall|id: Seq<char>| #[trigger]
            r@.dom().contains(id) <==> configured_as(module_views(modules@), id) is Some,
        forall|id: Seq<char>| #[trigger]
            r@.dom().contains(id) ==> r@[id] < modules@.len() && configured_as(
                module_views(modules@),
                id,
            ) == Some(modules@[r@[id] as int]@),
{
    let ghost all = module_views(modules@);
    let mut r: TextMap<usize> = TextMap::new();
    let mut i: usize = 0;
    while i < modules.len()
        invariant
            i <= modules.len(),
            all == module_views(modules@),
            r.wf(),
            forall|id: Seq<char>| #[trigger]
                r@.dom().contains(id) <==> configured_as(all.take(i as int), id) is Some,
            forall|id: Seq<char>| #[trigger]
                r@.dom().contains(id) ==> r@[id] < i && configured_as(all.take(i as int), id)
                    == Some(modules@[r@[id] as int]@),
        decreases modules.len() - i,
    {
        r.insert(modules[i].module_id.as_str(), i);
        proof {
            assert(all.take(i + 1).drop_last() =~= all.take(i as int));
            assert(all.take(i + 1).last() == modules@[i as int]@);
        }
        i += 1;
    }
    proof {
        assert(all.take(i as int) =~= all);
    }
    r
}

fn index_running(running: &Vec<RunningModule>) -> (r: TextMap<usize>)
    ensures
        r.wf(),
        forall|id: Seq<char>| #[trigger]
            r@.dom().contains(id) <==> running_as(running@, id) is Some,
        forall|id: Seq<char>| #[trigger]
            r@.dom().contains(id) ==> r@[id] < running@.len() && running_as(running@, id) == Some(
                reading_of(running@[r@[id] as int]),
            ),
{
    let mut r: TextMap<usize> = TextMap::new();
    let mut i: usize = 0;
    while i < running.len()
        invariant
            i <= running.len(),
            r.wf(),
            forall|id: Seq<char>| #[trigger]
                r@.dom().contains(id) <==> running_as(running@.take(i as int), id) is Some,
            forall|id: Seq<char>| #[trigger]
                r@.dom().contains(id) ==> r@[id] < i && running_as(running@.take(i as int), id)
                    == Some(reading_of(running@[r@[id] as int])),
        decreases running.len() - i,
    {
        r.insert(running[i].module_id.as_str(), i);
        proof {
            assert(running@.take(i + 1).drop_last() =~= running@.take(i as int));
            assert(running@.take(i + 1).last() == running@[i as int]);
        }
        i += 1;
    }
    proof {
        assert(running@.take(i as int) =~= running@);
    }
    r
}

/// How a running module differs from what is configured.
struct Difference {
    changed: bool,
    switched: bool,
}

fn difference(windows: bool, m: &ConfiguredModule, now: &RunningModule) -> (r: Difference)
    requires
        now.configuration is Ok,
        now.enabled is Ok,
    ensures
        r.changed == (!same_start(windows, reading_of(*now).spec, spec_of(m@)) || reading_of(*now).health
            != m@.health),
        r.switched == (reading_of(*now).enabled != m.enabled),
{
    let changed: bool = match &now.configuration {
        Ok((spec, health)) => !spec.equals(windows, &m.module_spec()) || !health.equals(&m.health),
        Err(_) => false,
    };
    let switched: bool = match &now.enabled {
        Ok(enabled) => *enabled != m.enabled,
        Err(_) => false,
    };
    Difference { changed, switched }
}

proof fn push_text(v: Seq<String>, w: Seq<String>, id: Seq<char>)
    requires
        w.len() == v.len() + 1,
        w.drop_last() == v,
        w.last()@ == id,
    ensures
        texts(w) == texts(v).push(id),
{
    assert(texts(w) =~= texts(v).push(id)) by {
        assert forall|k: int| 0 <= k < v.len() implies texts(w)[k] == texts(v)[k] by {
            assert(w.drop_last()[k] == v[k]);
        }
    }
}

#[verifier::rlimit(40)]
fn compare(
    windows: bool,
    running: &Vec<RunningModule>,
    configured: &Vec<ConfiguredModule>,
    wanted: &TextMap<usize>,
    present: &TextMap<usize>,
    Ghost(rescan): Ghost<Rescan>,
) -> (r: (RescanDiff, Vec<String>))
    requires
        rescan == (Rescan { windows, configured: module_views(configured@), running: running@ }),
        forall|i: int|
            0 <= i < running@.len() ==> (#[trigger] running@[i]).configuration is Ok
                && running@[i].enabled is Ok,
        wanted.wf(),
        present.wf(),
        forall|id: Seq<char>| #[trigger] wanted@.dom().contains(id) <==> rescan.wants(id),
        forall|id: Seq<char>| #[trigger]
            wanted@.dom().contains(id) ==> wanted@[id] < configured@.len() && configured_as(
                rescan.configured,
                id,
            ) == Some(configured@[wanted@[id] as int]@),
        forall|id: Seq<char>| #[trigger] present@.dom().contains(id) <==> rescan.runs(id),
        forall|id: Seq<char>| #[trigger]
            present@.dom().contains(id) ==> present@[id] < running@.len() && running_as(
                rescan.running,
                id,
            ) == Some(reading_of(running@[present@[id] as int])),
    ensures
        finds(r.0, rescan),
        lists(texts(r.1@), rescan.wanted()),
{
    let ghost keys = wanted.keys();
    let ghost others = present.keys();
    proof {
        wanted.keys_are_the_domain();
        present.keys_are_the_domain();
    }
    let mut ids: Vec<String> = Vec::new();
    let mut added: Vec<String> = Vec::new();
    let mut changed: Vec<String> = Vec::new();
    let mut switched: Vec<String> = Vec::new();
    let mut unchanged: u32 = 0;
    let ghost mut kept: Seq<Seq<char>> = Seq::empty();
    proof {
        assert(texts(ids@) =~= Seq::empty());
        assert(keys.take(0) =~= Seq::empty());
    }
    let n: usize = wanted.len();
    let mut i: usize = 0;
    while i < n
        invariant
            i <= n,
            n == keys.len(),
            keys == wanted.keys(),
            ascending(keys),
            wanted.wf(),
            present.wf(),
            rescan == (Rescan { windows, configured: module_views(configured@), running: running@ }),
            forall|i: int|
                0 <= i < running@.len() ==> (#[trigger] running@[i]).configuration is Ok
                    && running@[i].enabled is Ok,
            forall|id: Seq<char>| #[trigger] wanted@.dom().contains(id) <==> rescan.wants(id),
            forall|id: Seq<char>| #[trigger]
                wanted@.dom().contains(id) ==> wanted@[id] < configured@.len() && configured_as(
                    rescan.configured,
                    id,
                ) == Some(configured@[wanted@[id] as int]@),
            forall|id: Seq<char>| #[trigger] present@.dom().contains(id) <==> rescan.runs(id),
            forall|id: Seq<char>| #[trigger]
                present@.dom().contains(id) ==> present@[id] < running@.len() && running_as(
                    rescan.running,
                    id,
                ) == Some(reading_of(running@[present@[id] as int])),
            texts(ids@) == keys.take(i as int),
            picks(texts(added@), keys.take(i as int), rescan.additions()),
            picks(texts(changed@), keys.take(i as int), rescan.changes()),
            picks(texts(switched@), keys.take(i as int), rescan.switches()),
            picks(kept, keys.take(i as int), rescan.keeps()),
            unchanged as nat == if kept.len() < u32::MAX {
                kept.len()
            } else {
                u32::MAX as nat
            },
        decreases n - i,
    {
        let key: &String = wanted.key_at(i);
        let at: usize = *wanted.value_at(i);
        let ghost was = (ids@, added@, changed@, switched@);
        proof {
            picks_one_more(texts(added@), keys, i as int, rescan.additions());
            picks_one_more(texts(changed@), keys, i as int, rescan.changes());
            picks_one_more(texts(switched@), keys, i as int, rescan.switches());
            picks_one_more(kept, keys, i as int, rescan.keeps());
            assert(rescan.wants(key@));
            assert(keys.take(i + 1) =~= keys.take(i as int).push(key@));
        }
        ids.push(key.clone());
        proof {
            assert(ids@.drop_last() =~= was.0);
            push_text(was.0, ids@, key@);
        }
        match present.get(key.as_str()) {
            None => {
                added.push(key.clone());
                proof {
                    assert(added@.drop_last() =~= was.1);
                    push_text(was.1, added@, key@);
                }
            },
            Some(now) => {
                let d: Difference = difference(windows, &configured[at], &running[*now]);
                proof {
                    assert(rescan.runs(key@));
                    assert(d.changed == rescan.changed(key@));
                    assert(d.switched == rescan.switched(key@));
                }
                if d.changed {
                    changed.push(key.clone());
                    proof {
                        assert(changed@.drop_last() =~= was.2);
                        push_text(was.2, changed@, key@);
                    }
                }
                if d.switched {
                    switched.push(key.clone());
                    proof {
                        assert(switched@.drop_last() =~= was.3);
                        push_text(was.3, switched@, key@);
                    }
                }
                if !d.changed && !d.switched {
                    unchanged = if unchanged < u32::MAX {
                        unchanged + 1
                    } else {
                        unchanged
                    };
                    proof {
                        kept = kept.push(key@);
                    }
                }
            },
        }
        i += 1;
    }
    let mut removed: Vec<String> = Vec::new();
    let m: usize = present.len();
    let mut j: usize = 0;
    proof {
        assert(texts(removed@) =~= Seq::empty());
        assert(others.take(0) =~= Seq::empty());
    }
    while j < m
        invariant
            j <= m,
            m == others.len(),
            others == present.keys(),
            ascending(others),
            wanted.wf(),
            present.wf(),
            forall|id: Seq<char>| #[trigger] wanted@.dom().contains(id) <==> rescan.wants(id),
            forall|id: Seq<char>| #[trigger] present@.dom().contains(id) <==> rescan.runs(id),
            forall|id: Seq<char>| others.contains(id) <==> #[trigger] present@.dom().contains(id),
            picks(texts(removed@), others.take(j as int), rescan.removals()),
        decreases m - j,
    {
        let key: &String = present.key_at(j);
        let ghost was = removed@;
        proof {
            picks_one_more(texts(removed@), others, j as int, rescan.removals());
            assert(others.contains(key@));
            assert(present@.dom().contains(key@));
        }
        if !wanted.contains_key(key.as_str()) {
            removed.push(key.clone());
            proof {
                assert(removed@.drop_last() =~= was);
                push_text(was, removed@, key@);
            }
        }
        j += 1;
    }
    proof {
        assert(keys.take(n as int) =~= keys);
        assert forall|id: Seq<char>| rescan.wants(id) implies #[trigger] keys.contains(id) by {
            assert(wanted@.dom().contains(id));
        }
        assert forall|id: Seq<char>| rescan.runs(id) implies #[trigger] others.contains(id) by {
            assert(present@.dom().contains(id));
        }
        picks_all(texts(added@), keys, rescan.additions());
        picks_all(texts(changed@), keys, rescan.changes());
        picks_all(texts(switched@), keys, rescan.switches());
        picks_all(kept, keys, rescan.keeps());
        picks_all(texts(removed@), others, rescan.removals());
        one_list_for_a_kind(
            kept,
            choose|ids: Seq<Seq<char>>| lists(ids, rescan.keeps()),
            rescan.keeps(),
        );
        assert forall|id: Seq<char>| #[trigger] keys.contains(id) <==> rescan.wanted()(id) by {
            assert(keys.contains(id) <==> wanted@.dom().contains(id));
        }
    }
    (
        RescanDiff {
            added,
            removed,
            changed_pending_reload: changed,
            enabled_changes: switched,
            unchanged,
        },
        ids,
    )
}

fn push_removals(removed: &Vec<String>, actions: &mut Vec<RescanAction>)
    ensures
        action_views(final(actions)@) == action_views(old(actions)@) + removal_actions(
            texts(removed@),
        ),
{
    let ghost start = actions@;
    let ghost ids = texts(removed@);
    let mut i: usize = 0;
    proof {
        assert(action_views(start) + removal_actions(ids.take(0)) =~= action_views(start));
    }
    while i < removed.len()
        invariant
            i <= removed.len(),
            ids == texts(removed@),
            action_views(actions@) == action_views(start) + removal_actions(ids.take(i as int)),
        decreases removed.len() - i,
    {
        let ghost was = actions@;
        actions.push(RescanAction::Retire { module_id: removed[i].clone() });
        actions.push(RescanAction::RecordRemoval { module_id: removed[i].clone() });
        actions.push(RescanAction::Forget { module_id: removed[i].clone() });
        proof {
            let module_id = removed@[i as int]@;
            assert(ids.take(i + 1).drop_last() =~= ids.take(i as int));
            assert(ids.take(i + 1).last() == module_id);
            assert(action_views(actions@) =~= action_views(was) + seq![
                ActionView::Retire { module_id },
                ActionView::RecordRemoval { module_id },
                ActionView::Forget { module_id },
            ]);
            assert(action_views(actions@) =~= action_views(start) + removal_actions(
                ids.take(i + 1),
            ));
        }
        i += 1;
    }
    proof {
        assert(ids.take(i as int) =~= ids);
    }
}

fn push_changes(
    ids: &Vec<String>,
    diff: &RescanDiff,
    configured: &Vec<ConfiguredModule>,
    wanted: &TextMap<usize>,
    actions: &mut Vec<RescanAction>,
    Ghost(rescan): Ghost<Rescan>,
)
    requires
        rescan.configured == module_views(configured@),
        finds(*diff, rescan),
        lists(texts(ids@), rescan.wanted()),
        wanted.wf(),
        forall|id: Seq<char>| #[trigger] wanted@.dom().contains(id) <==> rescan.wants(id),
        forall|id: Seq<char>| #[trigger]
            wanted@.dom().contains(id) ==> wanted@[id] < configured@.len() && configured_as(
                rescan.configured,
                id,
            ) == Some(configured@[wanted@[id] as int]@),
    ensures
        action_views(final(actions)@) == action_views(old(actions)@) + change_actions(
            rescan,
            texts(ids@),
        ),
{
    let ghost start = actions@;
    let ghost all = texts(ids@);
    let mut i: usize = 0;
    proof {
        assert(action_views(start) + change_actions(rescan, all.take(0)) =~= action_views(start));
    }
    while i < ids.len()
        invariant
            i <= ids.len(),
            all == texts(ids@),
            rescan.configured == module_views(configured@),
            finds(*diff, rescan),
            lists(all, rescan.wanted()),
            wanted.wf(),
            forall|id: Seq<char>| #[trigger] wanted@.dom().contains(id) <==> rescan.wants(id),
            forall|id: Seq<char>| #[trigger]
                wanted@.dom().contains(id) ==> wanted@[id] < configured@.len() && configured_as(
                    rescan.configured,
                    id,
                ) == Some(configured@[wanted@[id] as int]@),
            action_views(actions@) == action_views(start) + change_actions(
                rescan,
                all.take(i as int),
            ),
        decreases ids.len() - i,
    {
        let id: &String = &ids[i];
        let ghost was = actions@;
        proof {
            assert(all[i as int] == id@);
            assert(all.contains(id@));
            assert(rescan.wanted()(id@));
            assert(wanted@.dom().contains(id@));
        }
        let at: usize = match wanted.get(id.as_str()) {
            Some(at) => *at,
            None => 0,
        };
        let m: &ConfiguredModule = &configured[at];
        let changed: bool = contains_text(&diff.changed_pending_reload, id.as_str());
        let switched: bool = contains_text(&diff.enabled_changes, id.as_str());
        proof {
            assert(changed == rescan.changes()(id@));
            assert(switched == rescan.switches()(id@));
        }
        if changed {
            actions.push(
                RescanAction::Update {
                    module_id: id.clone(),
                    spec: m.module_spec(),
                    health: m.health,
                    drain_timeout_ms: m.drain_timeout_ms,
                },
            );
        }
        if switched {
            actions.push(RescanAction::SetEnabled { module_id: id.clone(), enabled: m.enabled });
        }
        proof {
            assert(all.take(i + 1).drop_last() =~= all.take(i as int));
            assert(all.take(i + 1).last() == id@);
            assert(action_views(actions@) =~= action_views(was) + change_of(rescan, id@));
            assert(action_views(actions@) =~= action_views(start) + change_actions(
                rescan,
                all.take(i + 1),
            ));
        }
        i += 1;
    }
    proof {
        assert(all.take(i as int) =~= all);
    }
}

fn push_additions(
    added: &Vec<String>,
    configured: &Vec<ConfiguredModule>,
    wanted: &TextMap<usize>,
    actions: &mut Vec<RescanAction>,
    Ghost(rescan): Ghost<Rescan>,
)
    requires
        rescan.configured == module_views(configured@),
        lists(texts(added@), rescan.additions()),
        wanted.wf(),
        forall|id: Seq<char>| #[trigger] wanted@.dom().contains(id) <==> rescan.wants(id),
        forall|id: Seq<char>| #[trigger]
            wanted@.dom().contains(id) ==> wanted@[id] < configured@.len() && configured_as(
                rescan.configured,
                id,
            ) == Some(configured@[wanted@[id] as int]@),
    ensures
        action_views(final(actions)@) == action_views(old(actions)@) + addition_actions(
            rescan,
            texts(added@),
        ),
{
    let ghost start = actions@;
    let ghost all = texts(added@);
    let mut i: usize = 0;
    proof {
        assert(action_views(start) + addition_actions(rescan, all.take(0)) =~= action_views(start));
    }
    while i < added.len()
        invariant
            i <= added.len(),
            all == texts(added@),
            rescan.configured == module_views(configured@),
            lists(all, rescan.additions()),
            wanted.wf(),
            forall|id: Seq<char>| #[trigger] wanted@.dom().contains(id) <==> rescan.wants(id),
            forall|id: Seq<char>| #[trigger]
                wanted@.dom().contains(id) ==> wanted@[id] < configured@.len() && configured_as(
                    rescan.configured,
                    id,
                ) == Some(configured@[wanted@[id] as int]@),
            action_views(actions@) == action_views(start) + addition_actions(
                rescan,
                all.take(i as int),
            ),
        decreases added.len() - i,
    {
        let id: &String = &added[i];
        let ghost was = actions@;
        proof {
            assert(all[i as int] == id@);
            assert(all.contains(id@));
            assert(rescan.additions()(id@));
            assert(wanted@.dom().contains(id@));
        }
        let at: usize = match wanted.get(id.as_str()) {
            Some(at) => *at,
            None => 0,
        };
        let m: &ConfiguredModule = &configured[at];
        actions.push(
            RescanAction::Add {
                module_id: id.clone(),
                spec: m.module_spec(),
                enabled: m.enabled,
                health: m.health,
                drain_timeout_ms: m.drain_timeout_ms,
                restart: m.restart,
            },
        );
        proof {
            assert(action_views(actions@) =~= action_views(was).push(addition_of(rescan, id@)));
            assert(addition_actions(rescan, all.take(i + 1)) =~= addition_actions(
                rescan,
                all.take(i as int),
            ).push(addition_of(rescan, id@)));
            assert(action_views(actions@) =~= action_views(start) + addition_actions(
                rescan,
                all.take(i + 1),
            ));
        }
        i += 1;
    }
    proof {
        assert(all.take(i as int) =~= all);
    }
}

/// Plans how the running modules are brought in line with the configured ones. A
/// preview finds the same and does nothing.
pub fn reconcile_supervised_modules(
    windows: bool,
    running: &Vec<RunningModule>,
    configured: &Vec<ConfiguredModule>,
    preview: bool,
) -> (r: Result<RescanPlan, String>)
    ensures
        match r {
            Ok(plan) => first_problem(running@, reading_rule()) is None && plans(
                plan,
                Rescan { windows, configured: module_views(configured@), running: running@ },
                preview,
            ),
            Err(text) => first_problem(running@, reading_rule()) == Some(text@),
        },
{
    if let Some(text) = check_readings(running) {
        return Err(text);
    }
    let ghost rescan = Rescan { windows, configured: module_views(configured@), running: running@ };
    proof {
        no_problem_means_all_pass(running@, reading_rule());
        assert forall|i: int| 0 <= i < running@.len() implies (#[trigger] running@[i]).configuration
            is Ok && running@[i].enabled is Ok by {
            assert(reading_rule()(running@[i]) is None);
        }
    }
    let wanted: TextMap<usize> = index_configured(configured);
    let present: TextMap<usize> = index_running(running);
    let (diff, ids) = compare(windows, running, configured, &wanted, &present, Ghost(rescan));
    let mut actions: Vec<RescanAction> = Vec::new();
    proof {
        assert(action_views(actions@) =~= Seq::empty());
    }
    if !preview {
        push_removals(&diff.removed, &mut actions);
        push_changes(&ids, &diff, configured, &wanted, &mut actions, Ghost(rescan));
        push_additions(&diff.added, configured, &wanted, &mut actions, Ghost(rescan));
    }
    let plan = RescanPlan { diff, configured: ids, actions };
    proof {
        if !preview {
            assert(action_views(plan.actions@) =~= rescan_actions(rescan, plan));
        }
    }
    Ok(plan)
}

/// What is told of a step that failed.
pub open spec fn failure_text(action: ActionView, error: Seq<char>) -> Seq<char> {
    match action {
        ActionView::Retire { module_id } => "failed to retire module_id '"@ + module_id
            + "' during rescan: "@ + error,
        ActionView::Update { module_id, .. } => "failed to update module_id '"@ + module_id
            + "' configuration during rescan: "@ + error,
        ActionView::SetEnabled { module_id, enabled } => "failed to apply module_id '"@ + module_id
            + "' enabled="@ + bool_word(enabled) + " during rescan: "@ + error,
        ActionView::Add { module_id, .. } => "failed to add module_id '"@ + module_id
            + "' during rescan: "@ + error,
        ActionView::RecordRemoval { .. } | ActionView::Forget { .. } => error,
    }
}

fn failure_words(action: &RescanAction, error: String) -> (r: String)
    ensures
        r@ == failure_text(action@, error@),
{
    match action {
        RescanAction::Retire { module_id } => String::from_str(
            "failed to retire module_id '",
        ).concat(module_id.as_str()).concat("' during rescan: ").concat(error.as_str()),
        RescanAction::Update { module_id, .. } => String::from_str(
            "failed to update module_id '",
        ).concat(module_id.as_str()).concat("' configuration during rescan: ").concat(
            error.as_str(),
        ),
        RescanAction::SetEnabled { module_id, enabled } => String::from_str(
            "failed to apply module_id '",
        ).concat(module_id.as_str()).concat("' enabled=").concat(bool_text(*enabled)).concat(
            " during rescan: ",
        ).concat(error.as_str()),
        RescanAction::Add { module_id, .. } => String::from_str("failed to add module_id '").concat(
            module_id.as_str(),
        ).concat("' during rescan: ").concat(error.as_str()),
        RescanAction::RecordRemoval { .. } => error,
        RescanAction::Forget { .. } => error,
    }
}

/// What to do next in a rescan.
#[derive(Debug)]
pub enum RescanNext {
    /// The step at this place.
    Take(usize),
    Done,
    Failed(ErrorBody),
}

/// Says what to do after the step at `taken - 1`: go on, unless it failed. What
/// was done before a step that failed stays done.
pub fn rescan_next(actions: &Vec<RescanAction>, taken: usize, failed: Option<String>) -> (r:
    RescanNext)
    ensures
        match failed {
            Some(error) => 0 < taken <= actions@.len() ==> (r matches RescanNext::Failed(e) && e@
                == error_of(
                "rescan_failed"@,
                failure_text(actions@[taken - 1]@, error@),
            )),
            None => r == if taken < actions@.len() {
                RescanNext::Take(taken)
            } else {
                RescanNext::Done
            },
        },
        failed is Some && !(0 < taken <= actions@.len()) ==> (r matches RescanNext::Failed(e) && e@
            == error_of("rescan_failed"@, failed->0@)),
{
    match failed {
        Some(error) => if 0 < taken && taken <= actions.len() {
            RescanNext::Failed(
                control_error("rescan_failed", failure_words(&actions[taken - 1], error)),
            )
        } else {
            RescanNext::Failed(control_error("rescan_failed", error))
        },
        None => if taken < actions.len() {
            RescanNext::Take(taken)
        } else {
            RescanNext::Done
        },
    }
}

} // verus!
