//! What holds of every check across the modules of a file.
use crate::daemon_config::module::{module_views, ConfiguredModule};
use crate::daemon_config::validate::{
    against_rule, an_accepted_prefix_reaches_no_configured_id,
    accepted_prefixes_of_two_owners_do_not_overlap, binding_rule, boundary_rule, collision_rule,
    following_rule, module_named, names_targets, overlap_rule, owner_rule, pair_rule, places,
    prefix_rule, reach_rule, validate_admission_facts_config, validate_reserved_capabilities,
    validate_reserved_prefixes, RawReservedCapability,
};
use crate::problems::{first_problem, no_problem_means_all_pass, problem_found};
use crate::text::{is_prefix, quoted, texts, trimmed};
use vstd::prelude::*;

verus! {

/// A module with prefixes is reserved and each of them ends in a colon.
pub open spec fn prefixes_are_closed(m: ConfiguredModule) -> bool {
    m.reserved_prefixes@.len() > 0 ==> m.reserved && forall|p: int|
        0 <= p < m.reserved_prefixes@.len() ==> (#[trigger] m.reserved_prefixes@[p])@.len() > 0
            && m.reserved_prefixes@[p]@.last() == ':'
}

/// Some prefix of the module is the start of the id.
pub open spec fn reaches(m: ConfiguredModule, id: Seq<char>) -> bool {
    exists|p: int|
        0 <= p < m.reserved_prefixes@.len() && is_prefix(
            (#[trigger] m.reserved_prefixes@[p])@,
            id,
        )
}

/// A prefix of the one is the start of a prefix of the other.
pub open spec fn prefixes_overlap(a: ConfiguredModule, b: ConfiguredModule) -> bool {
    exists|p: int, q: int|
        0 <= p < a.reserved_prefixes@.len() && 0 <= q < b.reserved_prefixes@.len() && (is_prefix(
            (#[trigger] a.reserved_prefixes@[p])@,
            (#[trigger] b.reserved_prefixes@[q])@,
        ) || is_prefix(b.reserved_prefixes@[q]@, a.reserved_prefixes@[p]@))
}

proof fn closed_prefixes_pass(modules: Seq<ConfiguredModule>)
    requires
        forall|i: int| 0 <= i < modules.len() ==> prefixes_are_closed(#[trigger] modules[i]),
    ensures
        first_problem(module_views(modules), owner_rule()) is None,
{
    let views = module_views(modules);
    assert forall|i: int| 0 <= i < views.len() implies owner_rule()(#[trigger] views[i]) is None by {
        let m = modules[i];
        assert(views[i] == m@);
        let prefixes = views[i].reserved_prefixes;
        let rule = boundary_rule(views[i].module_id);
        assert(prefixes_are_closed(modules[i]));
        assert forall|p: int| 0 <= p < prefixes.len() implies rule(
            #[trigger] prefixes[p],
        ) is None by {
            assert(prefixes[p] == m.reserved_prefixes@[p]@);
        }
        no_problem_means_all_pass(prefixes, rule);
    }
    no_problem_means_all_pass(views, owner_rule());
}

proof fn prefixes_that_reach_nothing_pass(modules: Seq<ConfiguredModule>)
    requires
        forall|i: int, j: int|
            0 <= i < modules.len() && 0 <= j < modules.len() ==> !reaches(
                #[trigger] modules[i],
                (#[trigger] modules[j]).module_id@,
            ),
    ensures
        first_problem(module_views(modules), reach_rule(module_views(modules))) is None,
{
    let views = module_views(modules);
    assert forall|i: int| 0 <= i < views.len() implies reach_rule(views)(
        #[trigger] views[i],
    ) is None by {
        let m = modules[i];
        assert(views[i] == m@);
        let prefixes = views[i].reserved_prefixes;
        let rule = prefix_rule(views, views[i].module_id);
        assert forall|p: int| 0 <= p < prefixes.len() implies rule(
            #[trigger] prefixes[p],
        ) is None by {
            assert(prefixes[p] == m.reserved_prefixes@[p]@);
            let inner = collision_rule(views[i].module_id, prefixes[p]);
            assert forall|j: int| 0 <= j < views.len() implies inner(
                #[trigger] views[j],
            ) is None by {
                assert(views[j] == modules[j]@);
                assert(!reaches(modules[i], modules[j].module_id@));
            }
            no_problem_means_all_pass(views, inner);
        }
        no_problem_means_all_pass(prefixes, rule);
    }
    no_problem_means_all_pass(views, reach_rule(views));
}

proof fn prefixes_that_do_not_overlap_pass(modules: Seq<ConfiguredModule>)
    requires
        forall|i: int, j: int|
            0 <= i < j < modules.len() && (#[trigger] modules[i]).module_id@ != (
            #[trigger] modules[j]).module_id@ ==> !prefixes_overlap(modules[i], modules[j]),
    ensures
        first_problem(
            places(module_views(modules).len()),
            following_rule(module_views(modules)),
        ) is None,
{
    let views = module_views(modules);
    let all = places(views.len());
    let rule = following_rule(views);
    assert forall|i: int| 0 <= i < all.len() implies rule(#[trigger] all[i]) is None by {
        assert(all[i] == i);
        let a = modules[i];
        assert(views[i] == a@);
        let rest = views.skip(i + 1);
        assert forall|k: int| 0 <= k < rest.len() implies pair_rule(views[i])(
            #[trigger] rest[k],
        ) is None by {
            let j = i + 1 + k;
            let b = modules[j];
            assert(rest[k] == views[j]);
            assert(views[j] == b@);
            if a.module_id@ != b.module_id@ {
                assert(!prefixes_overlap(modules[i], modules[j]));
                let lefts = views[i].reserved_prefixes;
                let rights = views[j].reserved_prefixes;
                let against = against_rule(views[i].module_id, views[j]);
                assert forall|p: int| 0 <= p < lefts.len() implies against(
                    #[trigger] lefts[p],
                ) is None by {
                    assert(lefts[p] == a.reserved_prefixes@[p]@);
                    let inner = overlap_rule(views[i].module_id, lefts[p], views[j].module_id);
                    assert forall|q: int| 0 <= q < rights.len() implies inner(
                        #[trigger] rights[q],
                    ) is None by {
                        assert(rights[q] == b.reserved_prefixes@[q]@);
                    }
                    no_problem_means_all_pass(rights, inner);
                }
                no_problem_means_all_pass(lefts, against);
            }
        }
        no_problem_means_all_pass(rest, pair_rule(views[i]));
    }
    no_problem_means_all_pass(all, rule);
}

/// The reserved prefixes of a file are taken wherever each owner is reserved, each
/// prefix ends in a colon, none is the start of a configured id, and those of two
/// owners do not overlap.
pub proof fn sound_prefixes_are_taken(modules: &Vec<ConfiguredModule>, r: Option<String>)
    requires
        call_ensures(validate_reserved_prefixes, (modules,), r),
        forall|i: int| 0 <= i < modules@.len() ==> prefixes_are_closed(#[trigger] modules@[i]),
        forall|i: int, j: int|
            0 <= i < modules@.len() && 0 <= j < modules@.len() ==> !reaches(
                #[trigger] modules@[i],
                (#[trigger] modules@[j]).module_id@,
            ),
        forall|i: int, j: int|
            0 <= i < j < modules@.len() && (#[trigger] modules@[i]).module_id@ != (
            #[trigger] modules@[j]).module_id@ ==> !prefixes_overlap(modules@[i], modules@[j]),
    ensures
        r is None,
{
    closed_prefixes_pass(modules@);
    prefixes_that_reach_nothing_pass(modules@);
    prefixes_that_do_not_overlap_pass(modules@);
}

/// Reserved prefixes that are taken are sound: their owners are reserved, they end in a
/// colon, they are the start of no configured id, and those of two owners do not overlap.
pub proof fn prefixes_that_are_taken_are_sound(
    modules: &Vec<ConfiguredModule>,
    r: Option<String>,
    i: int,
    j: int,
)
    requires
        call_ensures(validate_reserved_prefixes, (modules,), r),
        r is None,
        0 <= i < modules@.len(),
        0 <= j < modules@.len(),
    ensures
        prefixes_are_closed(modules@[i]),
        !reaches(modules@[i], modules@[j].module_id@),
        modules@[i].module_id@ != modules@[j].module_id@ ==> !prefixes_overlap(
            modules@[i],
            modules@[j],
        ),
{
    let views = module_views(modules@);
    let a = modules@[i];
    let b = modules@[j];
    assert(views[i] == a@ && views[j] == b@);
    assert forall|p: int| 0 <= p < a.reserved_prefixes@.len() implies (
    #[trigger] a.reserved_prefixes@[p])@.len() > 0 && a.reserved_prefixes@[p]@.last() == ':'
        && !is_prefix(a.reserved_prefixes@[p]@, b.module_id@) && a.reserved by {
        an_accepted_prefix_reaches_no_configured_id(views, i, p, j);
        assert(views[i].reserved_prefixes[p] == a.reserved_prefixes@[p]@);
    }
    if a.reserved_prefixes@.len() > 0 {
        let _ = a.reserved_prefixes@[0];
    }
    if a.module_id@ != b.module_id@ && prefixes_overlap(a, b) {
        let (p, q) = choose|p: int, q: int|
            0 <= p < a.reserved_prefixes@.len() && 0 <= q < b.reserved_prefixes@.len() && (
            is_prefix(
                (#[trigger] a.reserved_prefixes@[p])@,
                (#[trigger] b.reserved_prefixes@[q])@,
            ) || is_prefix(b.reserved_prefixes@[q]@, a.reserved_prefixes@[p]@));
        assert(views[i].reserved_prefixes[p] == a.reserved_prefixes@[p]@);
        assert(views[j].reserved_prefixes[q] == b.reserved_prefixes@[q]@);
        accepted_prefixes_of_two_owners_do_not_overlap(views, i, p, j, q, a.module_id@);
        accepted_prefixes_of_two_owners_do_not_overlap(views, j, q, i, p, a.module_id@);
    }
}

/// Prefixes of a module that is not reserved are refused in its name, where no module
/// before it is at fault.
pub proof fn prefixes_need_a_reserved_owner(
    modules: &Vec<ConfiguredModule>,
    r: Option<String>,
    i: int,
)
    requires
        call_ensures(validate_reserved_prefixes, (modules,), r),
        0 <= i < modules@.len(),
        forall|k: int| 0 <= k < i ==> prefixes_are_closed(#[trigger] modules@[k]),
        modules@[i].reserved_prefixes@.len() > 0,
        !modules@[i].reserved,
    ensures
        r is Some,
        r->0@ == "module '"@ + modules@[i].module_id@
            + "' reserved_prefixes require reserved=true so the owner is spawn-nonce protected"@,
{
    let views = module_views(modules@);
    let before = modules@.take(i);
    assert forall|k: int| 0 <= k < before.len() implies prefixes_are_closed(
        #[trigger] before[k],
    ) by {
        assert(before[k] == modules@[k]);
    }
    closed_prefixes_pass(before);
    assert(views.take(i) =~= module_views(before));
    assert(views[i] == modules@[i]@);
    assert(views[i].reserved_prefixes.len() == modules@[i].reserved_prefixes@.len());
    assert(owner_rule()(views[i]) is Some);
    problem_found(views, owner_rule(), i);
}

/// A binding of a reserved capability is refused for an identifier that is none, then
/// for an empty module id, then for one that cannot be a path, by the first binding at
/// fault; sound bindings are taken.
pub proof fn the_first_wrong_binding_is_named(
    bindings: &Vec<RawReservedCapability>,
    r: Option<String>,
    i: int,
)
    requires
        call_ensures(validate_reserved_capabilities, (bindings,), r),
    ensures
        (forall|k: int|
            0 <= k < bindings@.len() ==> (#[trigger] bindings@[k]).valid_identifier && trimmed(
                bindings@[k].module_id@,
            ).len() > 0 && bindings@[k].path_hazard is None) ==> r is None,
        0 <= i < bindings@.len() && (forall|k: int|
            0 <= k < i ==> (#[trigger] bindings@[k]).valid_identifier && trimmed(
                bindings@[k].module_id@,
            ).len() > 0 && bindings@[k].path_hazard is None) ==> {
            let b = bindings@[i];
            &&& !b.valid_identifier ==> r is Some && r->0@ == "reserved_capabilities key "@
                + quoted(b.capability@) + " is not a valid capability identifier"@
            &&& b.valid_identifier && trimmed(b.module_id@).len() == 0 ==> r is Some && r->0@
                == "reserved_capabilities binding for "@ + quoted(b.capability@)
                + " has an empty module id"@
            &&& b.valid_identifier && trimmed(b.module_id@).len() > 0 ==> (
            b.path_hazard matches Some(reason) ==> r is Some && r->0@
                == "reserved_capabilities binding for "@ + quoted(b.capability@)
                + " has an unusable module id "@ + quoted(b.module_id@) + ": "@ + reason@)
        },
{
    let rule = binding_rule();
    no_problem_means_all_pass(bindings@, rule);
    if forall|k: int|
        0 <= k < bindings@.len() ==> (#[trigger] bindings@[k]).valid_identifier && trimmed(
            bindings@[k].module_id@,
        ).len() > 0 && bindings@[k].path_hazard is None {
        assert forall|k: int| 0 <= k < bindings@.len() implies rule(
            #[trigger] bindings@[k],
        ) is None by {}
    }
    if 0 <= i < bindings@.len() && (forall|k: int|
        0 <= k < i ==> (#[trigger] bindings@[k]).valid_identifier && trimmed(
            bindings@[k].module_id@,
        ).len() > 0 && bindings@[k].path_hazard is None) {
        let before = bindings@.take(i);
        assert forall|k: int| 0 <= k < before.len() implies rule(#[trigger] before[k]) is None by {
            assert(before[k] == bindings@[k]);
        }
        no_problem_means_all_pass(before, rule);
        if rule(bindings@[i]) is Some {
            problem_found(bindings@, rule, i);
        }
    }
}

/// The `i`-th module is the first of this id.
pub open spec fn first_named(modules: Seq<ConfiguredModule>, i: int, id: Seq<char>) -> bool {
    &&& 0 <= i < modules.len()
    &&& modules[i].module_id@ == id
    &&& forall|k: int| 0 <= k < i ==> (#[trigger] modules[k]).module_id@ != id
}

proof fn the_first_of_a_name_is_found(modules: Seq<ConfiguredModule>, i: int, id: Seq<char>)
    ensures
        first_named(modules, i, id) ==> module_named(module_views(modules), id) == Some(
            modules[i]@,
        ),
        (forall|k: int| 0 <= k < modules.len() ==> (#[trigger] modules[k]).module_id@ != id)
            ==> module_named(module_views(modules), id) is None,
    decreases modules.len(),
{
    if modules.len() > 0 {
        let views = module_views(modules);
        let before = modules.drop_last();
        let last = modules.len() - 1;
        the_first_of_a_name_is_found(before, i, id);
        assert(views.drop_last() =~= module_views(before));
        assert(views.last() == modules[last]@);
        assert forall|k: int| 0 <= k < last implies before[k] == #[trigger] modules[k] by {}
        if first_named(modules, i, id) {
            if i < last {
                assert(before[i] == modules[i]);
                assert(first_named(before, i, id));
            } else {
                assert forall|k: int| 0 <= k < before.len() implies (
                #[trigger] before[k]).module_id@ != id by {
                    assert(before[k] == modules[k]);
                }
            }
        }
        if forall|k: int| 0 <= k < modules.len() ==> (#[trigger] modules[k]).module_id@ != id {
            assert forall|k: int| 0 <= k < before.len() implies (#[trigger] before[k]).module_id@
                != id by {
                assert(before[k] == modules[k]);
            }
            assert(modules[last].module_id@ != id);
        }
    }
}

/// A carrier of admission facts is a configured module that is enabled and reserved, and
/// has a list of targets with no empty name in it; anything less is refused by what is
/// missing. Without a carrier there is nothing to check.
pub proof fn what_a_carrier_needs(
    modules: &Vec<ConfiguredModule>,
    carrier_module_id: Option<&str>,
    targets: &Option<Vec<String>>,
    r: Option<String>,
    i: int,
)
    requires
        call_ensures(validate_admission_facts_config, (modules, carrier_module_id, targets), r),
    ensures
        carrier_module_id is None ==> r is None,
        carrier_module_id matches Some(id) ==> {
            &&& (forall|k: int|
                0 <= k < modules@.len() ==> (#[trigger] modules@[k]).module_id@ != id@) ==> r
                is Some && r->0@ == "admission_facts_carrier_module_id '"@ + id@
                + "' must name a configured module"@
            &&& first_named(modules@, i, id@) && !(modules@[i].enabled && modules@[i].reserved)
                ==> r is Some && r->0@ == "admission_facts_carrier_module_id '"@ + id@
                + "' must name an enabled reserved module"@
            &&& first_named(modules@, i, id@) && modules@[i].enabled && modules@[i].reserved ==> {
                let named = targets is Some && targets->0@.len() > 0 && forall|k: int|
                    0 <= k < targets->0@.len() ==> (#[trigger] targets->0@[k])@.len() > 0;
                &&& targets is None ==> r is Some && r->0@
                    == "admission_facts_targets must be present when an admission facts carrier is configured"@
                &&& targets is Some && !named ==> r is Some && r->0@
                    == "admission_facts_targets must be non-empty and must not contain empty module ids"@
                &&& named ==> r is None
            }
        },
{
    if carrier_module_id is Some {
        the_first_of_a_name_is_found(modules@, i, carrier_module_id->0@);
    }
    if targets is Some {
        let list = targets->0@;
        let views = texts(list);
        assert(views.len() == list.len());
        assert forall|k: int| 0 <= k < list.len() implies views[k] == (#[trigger] list[k])@ by {}
        if names_targets(views) {
            assert forall|k: int| 0 <= k < list.len() implies (#[trigger] list[k])@.len() > 0 by {
                assert(views[k].len() > 0);
            }
        }
        if list.len() > 0 && (forall|k: int|
            0 <= k < list.len() ==> (#[trigger] list[k])@.len() > 0) {
            assert forall|k: int| 0 <= k < views.len() implies (#[trigger] views[k]).len() > 0 by {
                assert(list[k]@.len() > 0);
            }
        }
    }
}

/// The first prefix of the first owner at fault that does not end in a colon is named.
pub proof fn a_prefix_that_is_not_closed_is_named(
    modules: &Vec<ConfiguredModule>,
    r: Option<String>,
    i: int,
    p: int,
)
    requires
        call_ensures(validate_reserved_prefixes, (modules,), r),
        0 <= i < modules@.len(),
        forall|k: int| 0 <= k < i ==> prefixes_are_closed(#[trigger] modules@[k]),
        modules@[i].reserved,
        0 <= p < modules@[i].reserved_prefixes@.len(),
        forall|k: int|
            0 <= k < p ==> (#[trigger] modules@[i].reserved_prefixes@[k])@.len() > 0
                && modules@[i].reserved_prefixes@[k]@.last() == ':',
        modules@[i].reserved_prefixes@[p]@.len() == 0 || modules@[i].reserved_prefixes@[p]@.last()
            != ':',
    ensures
        r is Some,
        r->0@ == "module '"@ + modules@[i].module_id@ + "' reserved prefix '"@
            + modules@[i].reserved_prefixes@[p]@ + "' must end with ':'"@,
{
    let views = module_views(modules@);
    let before = modules@.take(i);
    assert forall|k: int| 0 <= k < before.len() implies prefixes_are_closed(
        #[trigger] before[k],
    ) by {
        assert(before[k] == modules@[k]);
    }
    closed_prefixes_pass(before);
    assert(views.take(i) =~= module_views(before));
    assert(views[i] == modules@[i]@);
    let prefixes = views[i].reserved_prefixes;
    let rule = boundary_rule(views[i].module_id);
    assert(prefixes.len() == modules@[i].reserved_prefixes@.len());
    let closed = prefixes.take(p);
    assert forall|k: int| 0 <= k < closed.len() implies rule(#[trigger] closed[k]) is None by {
        assert(closed[k] == modules@[i].reserved_prefixes@[k]@);
    }
    no_problem_means_all_pass(closed, rule);
    assert(prefixes[p] == modules@[i].reserved_prefixes@[p]@);
    problem_found(prefixes, rule, p);
    assert(owner_rule()(views[i]) is Some);
    problem_found(views, owner_rule(), i);
}

/// A prefix that is the start of a configured id is named with its owner and that id, and
/// prefixes of two owners that overlap are named with both, where nothing before them is
/// at fault: here among two modules.
pub proof fn colliding_prefixes_are_named(
    modules: &Vec<ConfiguredModule>,
    r: Option<String>,
)
    requires
        call_ensures(validate_reserved_prefixes, (modules,), r),
        modules@.len() == 2,
        modules@[0].reserved,
        modules@[0].reserved_prefixes@.len() == 1,
        prefixes_are_closed(modules@[0]),
        prefixes_are_closed(modules@[1]),
        modules@[1].reserved_prefixes@.len() <= 1,
        !is_prefix(modules@[0].reserved_prefixes@[0]@, modules@[0].module_id@),
        modules@[0].module_id@ != modules@[1].module_id@,
    ensures
        ({
            let owner = modules@[0].module_id@;
            let prefix = modules@[0].reserved_prefixes@[0]@;
            let other = modules@[1].module_id@;
            &&& is_prefix(prefix, other) ==> r is Some && r->0@ == "reserved prefix '"@ + prefix
                + "' owned by '"@ + owner + "' collides with configured module id '"@ + other
                + "'"@
            &&& !is_prefix(prefix, other) && modules@[1].reserved_prefixes@.len() == 1
                && !reaches(modules@[1], owner) && !reaches(modules@[1], other) ==> {
                let theirs = modules@[1].reserved_prefixes@[0]@;
                &&& is_prefix(theirs, prefix) || is_prefix(prefix, theirs) ==> r is Some && r->0@
                    == "reserved prefixes '"@ + prefix + "' owned by '"@ + owner + "' and '"@
                    + theirs + "' owned by '"@ + other + "' overlap"@
                &&& !is_prefix(theirs, prefix) && !is_prefix(prefix, theirs) ==> r is None
            }
        }),
{
    let views = module_views(modules@);
    assert(views[0] == modules@[0]@ && views[1] == modules@[1]@);
    assert(views.len() == 2);
    assert forall|i: int| 0 <= i < modules@.len() implies prefixes_are_closed(
        #[trigger] modules@[i],
    ) by {}
    closed_prefixes_pass(modules@);
    let owner = views[0].module_id;
    let prefixes = views[0].reserved_prefixes;
    assert(prefixes.len() == 1);
    let prefix = prefixes[0];
    assert(prefix == modules@[0].reserved_prefixes@[0]@);
    let inner = collision_rule(owner, prefix);
    assert(views.take(0) =~= Seq::empty());
    assert(views.take(1).drop_last() =~= Seq::empty());
    assert(views.take(1).last() == views[0]);
    assert(inner(views[0]) is None);
    assert(first_problem(views.take(0), inner) is None);
    reveal_with_fuel(first_problem, 3);
    assert(first_problem(views.take(1), inner) is None);
    let rule = prefix_rule(views, owner);
    assert(prefixes.take(0) =~= Seq::empty());
    assert(first_problem(prefixes.take(0), rule) is None);
    assert(first_problem(views.take(0), reach_rule(views)) is None);
    if is_prefix(prefix, views[1].module_id) {
        problem_found(views, inner, 1);
        problem_found(prefixes, rule, 0);
        problem_found(views, reach_rule(views), 0);
    } else if modules@[1].reserved_prefixes@.len() == 1 && !reaches(
        modules@[1],
        modules@[0].module_id@,
    ) && !reaches(modules@[1], modules@[1].module_id@) {
        assert forall|i: int, j: int|
            0 <= i < modules@.len() && 0 <= j < modules@.len() implies !reaches(
            #[trigger] modules@[i],
            (#[trigger] modules@[j]).module_id@,
        ) by {
            if i == 0 && reaches(modules@[0], modules@[j].module_id@) {
                let p = choose|p: int|
                    0 <= p < modules@[0].reserved_prefixes@.len() && is_prefix(
                        (#[trigger] modules@[0].reserved_prefixes@[p])@,
                        modules@[j].module_id@,
                    );
                assert(p == 0);
            }
        }
        prefixes_that_reach_nothing_pass(modules@);
        let rights = views[1].reserved_prefixes;
        assert(rights.len() == 1);
        assert(rights[0] == modules@[1].reserved_prefixes@[0]@);
        let against = against_rule(owner, views[1]);
        let overlap = overlap_rule(owner, prefix, views[1].module_id);
        assert(rights.take(0) =~= Seq::empty());
        let all = places(2);
        let following = following_rule(views);
        let rest = views.skip(1);
        assert(rest =~= seq![views[1]]);
        assert(rest.take(0) =~= Seq::empty());
        assert(all.take(0) =~= Seq::empty());
        assert(first_problem(all.take(0), following) is None);
        if is_prefix(rights[0], prefix) || is_prefix(prefix, rights[0]) {
            assert(overlap(rights[0]) is Some);
            problem_found(rights, overlap, 0);
            assert(against(prefix) == overlap(rights[0]));
            problem_found(prefixes, against, 0);
            assert(pair_rule(views[0])(rest[0]) == against(prefix));
            problem_found(rest, pair_rule(views[0]), 0);
            assert(all[0] == 0);
            assert(following(all[0]) == against(prefix));
            problem_found(all, following, 0);
        } else {
            assert forall|i: int, j: int|
                0 <= i < j < modules@.len() && (#[trigger] modules@[i]).module_id@ != (
                #[trigger] modules@[j]).module_id@ implies !prefixes_overlap(
                modules@[i],
                modules@[j],
            ) by {
                assert(i == 0 && j == 1);
                if prefixes_overlap(modules@[0], modules@[1]) {
                    let (p, q) = choose|p: int, q: int|
                        0 <= p < modules@[0].reserved_prefixes@.len() && 0 <= q
                            < modules@[1].reserved_prefixes@.len() && (is_prefix(
                            (#[trigger] modules@[0].reserved_prefixes@[p])@,
                            (#[trigger] modules@[1].reserved_prefixes@[q])@,
                        ) || is_prefix(
                            modules@[1].reserved_prefixes@[q]@,
                            modules@[0].reserved_prefixes@[p]@,
                        ));
                    assert(p == 0 && q == 0);
                }
            }
            prefixes_that_do_not_overlap_pass(modules@);
        }
    }
}

} // verus!
