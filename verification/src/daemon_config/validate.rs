//! What must hold between the parts of a configuration.
use crate::daemon_config::module::{module_views, ConfiguredModule, ModuleView};
use crate::key_order::Keyed;
use crate::problems::{
    first_problem, no_problem_means_all_pass, passes_on, problem_found,
};
use crate::text::{
    ends_with_char, is_prefix, quote_debug, quoted, same, starts_with, texts, trim, trimmed,
};
use vstd::prelude::*;

verus! {

/// What is wrong with a prefix.
pub open spec fn boundary_problem(owner: Seq<char>, prefix: Seq<char>) -> Option<Seq<char>> {
    if prefix.len() > 0 && prefix.last() == ':' {
        None
    } else {
        Some(
            "module '"@ + owner + "' reserved prefix '"@ + prefix + "' must end with ':'"@,
        )
    }
}

/// The rule for the prefixes of `owner`.
pub open spec fn boundary_rule(owner: Seq<char>) -> spec_fn(Seq<char>) -> Option<Seq<char>> {
    |prefix: Seq<char>| boundary_problem(owner, prefix)
}

/// What is wrong with a module's prefixes taken alone.
pub open spec fn owner_problem(m: ModuleView) -> Option<Seq<char>> {
    if m.reserved_prefixes.len() == 0 {
        None
    } else if !m.reserved {
        Some(
            "module '"@ + m.module_id
                + "' reserved_prefixes require reserved=true so the owner is spawn-nonce protected"@,
        )
    } else {
        first_problem(m.reserved_prefixes, boundary_rule(m.module_id))
    }
}

/// The rule for a module's prefixes taken alone.
pub open spec fn owner_rule() -> spec_fn(ModuleView) -> Option<Seq<char>> {
    |m: ModuleView| owner_problem(m)
}

/// What is wrong with a module whose id starts with another's prefix.
pub open spec fn collision_problem(
    owner: Seq<char>,
    prefix: Seq<char>,
    candidate: ModuleView,
) -> Option<Seq<char>> {
    if is_prefix(prefix, candidate.module_id) {
        Some(
            "reserved prefix '"@ + prefix + "' owned by '"@ + owner
                + "' collides with configured module id '"@ + candidate.module_id + "'"@,
        )
    } else {
        None
    }
}

/// The rule for the modules beside one prefix.
pub open spec fn collision_rule(owner: Seq<char>, prefix: Seq<char>) -> spec_fn(
    ModuleView,
) -> Option<Seq<char>> {
    |candidate: ModuleView| collision_problem(owner, prefix, candidate)
}

/// The rule for the prefixes of `owner` beside all modules.
pub open spec fn prefix_rule(modules: Seq<ModuleView>, owner: Seq<char>) -> spec_fn(
    Seq<char>,
) -> Option<Seq<char>> {
    |prefix: Seq<char>| first_problem(modules, collision_rule(owner, prefix))
}

/// The rule for the owners of prefixes beside all modules.
pub open spec fn reach_rule(modules: Seq<ModuleView>) -> spec_fn(ModuleView) -> Option<Seq<char>> {
    |m: ModuleView| first_problem(m.reserved_prefixes, prefix_rule(modules, m.module_id))
}

/// What is wrong with two prefixes of different owners.
pub open spec fn overlap_problem(
    left: Seq<char>,
    left_prefix: Seq<char>,
    right: Seq<char>,
    right_prefix: Seq<char>,
) -> Option<Seq<char>> {
    if is_prefix(right_prefix, left_prefix) || is_prefix(left_prefix, right_prefix) {
        Some(
            "reserved prefixes '"@ + left_prefix + "' owned by '"@ + left + "' and '"@
                + right_prefix + "' owned by '"@ + right + "' overlap"@,
        )
    } else {
        None
    }
}

/// The rule for the prefixes of `right` beside one of `left`.
pub open spec fn overlap_rule(
    left: Seq<char>,
    left_prefix: Seq<char>,
    right: Seq<char>,
) -> spec_fn(Seq<char>) -> Option<Seq<char>> {
    |right_prefix: Seq<char>| overlap_problem(left, left_prefix, right, right_prefix)
}

/// The rule for the prefixes of `left` beside those of `right`.
pub open spec fn against_rule(left: Seq<char>, right: ModuleView) -> spec_fn(Seq<char>) -> Option<
    Seq<char>,
> {
    |left_prefix: Seq<char>|
        first_problem(right.reserved_prefixes, overlap_rule(left, left_prefix, right.module_id))
}

/// What is wrong with the prefixes of two modules.
pub open spec fn pair_problem(left: ModuleView, right: ModuleView) -> Option<Seq<char>> {
    if left.module_id == right.module_id {
        None
    } else {
        first_problem(left.reserved_prefixes, against_rule(left.module_id, right))
    }
}

/// The rule for the modules beside `left`.
pub open spec fn pair_rule(left: ModuleView) -> spec_fn(ModuleView) -> Option<Seq<char>> {
    |right: ModuleView| pair_problem(left, right)
}

/// The rule for a module, by its place, beside those that follow it.
pub open spec fn following_rule(modules: Seq<ModuleView>) -> spec_fn(int) -> Option<Seq<char>> {
    |i: int| first_problem(modules.skip(i + 1), pair_rule(modules[i]))
}

/// The places of a list.
pub open spec fn places(n: nat) -> Seq<int> {
    Seq::new(n, |i: int| i)
}

/// What is wrong with the reserved prefixes: first with a module's alone, then
/// with one beside the module ids, then with two beside each other.
pub open spec fn prefixes_problem(modules: Seq<ModuleView>) -> Option<Seq<char>> {
    match first_problem(modules, owner_rule()) {
        Some(problem) => Some(problem),
        None => match first_problem(modules, reach_rule(modules)) {
            Some(problem) => Some(problem),
            None => first_problem(places(modules.len()), following_rule(modules)),
        },
    }
}

/// Says the same as the option over characters.
pub open spec fn tells(r: Option<String>, problem: Option<Seq<char>>) -> bool {
    match r {
        Some(text) => problem == Some(text@),
        None => problem is None,
    }
}

fn check_owner(m: &ConfiguredModule) -> (r: Option<String>)
    ensures
        tells(r, owner_problem(m@)),
{
    if m.reserved_prefixes.len() == 0 {
        return None;
    }
    if !m.reserved {
        return Some(
            String::from_str("module '").concat(m.module_id.as_str()).concat(
                "' reserved_prefixes require reserved=true so the owner is spawn-nonce protected",
            ),
        );
    }
    let ghost all = m@.reserved_prefixes;
    let ghost rule = boundary_rule(m@.module_id);
    let mut i: usize = 0;
    while i < m.reserved_prefixes.len()
        invariant
            i <= m.reserved_prefixes.len(),
            all == texts(m.reserved_prefixes@),
            rule == boundary_rule(m.module_id@),
            first_problem(all.take(i as int), rule) is None,
            owner_problem(m@) == first_problem(all, rule),
        decreases m.reserved_prefixes.len() - i,
    {
        proof {
            assert(all[i as int] == m.reserved_prefixes@[i as int]@);
            assert(rule(all[i as int]) == boundary_problem(m.module_id@, all[i as int]));
        }
        if !ends_with_char(m.reserved_prefixes[i].as_str(), ':') {
            proof {
                problem_found(all, rule, i as int);
            }
            return Some(
                String::from_str("module '").concat(m.module_id.as_str()).concat(
                    "' reserved prefix '",
                ).concat(m.reserved_prefixes[i].as_str()).concat("' must end with ':'"),
            );
        }
        proof {
            passes_on(all, rule, i as int);
        }
        i += 1;
    }
    proof {
        assert(all.take(i as int) =~= all);
    }
    None
}

fn check_owners(modules: &Vec<ConfiguredModule>) -> (r: Option<String>)
    ensures
        tells(r, first_problem(module_views(modules@), owner_rule())),
{
    let ghost all = module_views(modules@);
    let ghost rule = owner_rule();
    let mut i: usize = 0;
    while i < modules.len()
        invariant
            i <= modules.len(),
            all == module_views(modules@),
            rule == owner_rule(),
            first_problem(all.take(i as int), rule) is None,
        decreases modules.len() - i,
    {
        let problem: Option<String> = check_owner(&modules[i]);
        proof {
            assert(all[i as int] == modules@[i as int]@);
            assert(rule(all[i as int]) == owner_problem(modules@[i as int]@));
        }
        if problem.is_some() {
            proof {
                problem_found(all, rule, i as int);
            }
            return problem;
        }
        proof {
            passes_on(all, rule, i as int);
        }
        i += 1;
    }
    proof {
        assert(all.take(i as int) =~= all);
    }
    None
}

fn check_collision(modules: &Vec<ConfiguredModule>, owner: &str, prefix: &str) -> (r: Option<
    String,
>)
    ensures
        tells(r, first_problem(module_views(modules@), collision_rule(owner@, prefix@))),
{
    let ghost all = module_views(modules@);
    let ghost rule = collision_rule(owner@, prefix@);
    let mut i: usize = 0;
    while i < modules.len()
        invariant
            i <= modules.len(),
            all == module_views(modules@),
            rule == collision_rule(owner@, prefix@),
            first_problem(all.take(i as int), rule) is None,
        decreases modules.len() - i,
    {
        proof {
            assert(all[i as int] == modules@[i as int]@);
            assert(rule(all[i as int]) == collision_problem(owner@, prefix@, all[i as int]));
        }
        if starts_with(modules[i].module_id.as_str(), prefix) {
            proof {
                problem_found(all, rule, i as int);
            }
            return Some(
                String::from_str("reserved prefix '").concat(prefix).concat(
                    "' owned by '",
                ).concat(owner).concat("' collides with configured module id '").concat(
                    modules[i].module_id.as_str(),
                ).concat("'"),
            );
        }
        proof {
            passes_on(all, rule, i as int);
        }
        i += 1;
    }
    proof {
        assert(all.take(i as int) =~= all);
    }
    None
}

fn check_prefixes_of(modules: &Vec<ConfiguredModule>, m: &ConfiguredModule) -> (r: Option<String>)
    ensures
        tells(
            r,
            first_problem(m@.reserved_prefixes, prefix_rule(module_views(modules@), m.module_id@)),
        ),
{
    let ghost all = m@.reserved_prefixes;
    let ghost rule = prefix_rule(module_views(modules@), m.module_id@);
    let mut i: usize = 0;
    while i < m.reserved_prefixes.len()
        invariant
            i <= m.reserved_prefixes.len(),
            all == texts(m.reserved_prefixes@),
            rule == prefix_rule(module_views(modules@), m.module_id@),
            first_problem(all.take(i as int), rule) is None,
        decreases m.reserved_prefixes.len() - i,
    {
        let problem: Option<String> = check_collision(
            modules,
            m.module_id.as_str(),
            m.reserved_prefixes[i].as_str(),
        );
        proof {
            assert(all[i as int] == m.reserved_prefixes@[i as int]@);
            assert(rule(all[i as int]) == first_problem(
                module_views(modules@),
                collision_rule(m.module_id@, all[i as int]),
            ));
        }
        if problem.is_some() {
            proof {
                problem_found(all, rule, i as int);
            }
            return problem;
        }
        proof {
            passes_on(all, rule, i as int);
        }
        i += 1;
    }
    proof {
        assert(all.take(i as int) =~= all);
    }
    None
}

fn check_reach(modules: &Vec<ConfiguredModule>) -> (r: Option<String>)
    ensures
        tells(r, first_problem(module_views(modules@), reach_rule(module_views(modules@)))),
{
    let ghost all = module_views(modules@);
    let ghost rule = reach_rule(all);
    let mut i: usize = 0;
    while i < modules.len()
        invariant
            i <= modules.len(),
            all == module_views(modules@),
            rule == reach_rule(all),
            first_problem(all.take(i as int), rule) is None,
        decreases modules.len() - i,
    {
        let problem: Option<String> = check_prefixes_of(modules, &modules[i]);
        proof {
            assert(all[i as int] == modules@[i as int]@);
            assert(rule(all[i as int]) == first_problem(
                all[i as int].reserved_prefixes,
                prefix_rule(all, all[i as int].module_id),
            ));
        }
        if problem.is_some() {
            proof {
                problem_found(all, rule, i as int);
            }
            return problem;
        }
        proof {
            passes_on(all, rule, i as int);
        }
        i += 1;
    }
    proof {
        assert(all.take(i as int) =~= all);
    }
    None
}

fn check_against(left: &str, left_prefix: &str, right: &ConfiguredModule) -> (r: Option<String>)
    ensures
        tells(
            r,
            first_problem(
                right@.reserved_prefixes,
                overlap_rule(left@, left_prefix@, right.module_id@),
            ),
        ),
{
    let ghost all = right@.reserved_prefixes;
    let ghost rule = overlap_rule(left@, left_prefix@, right.module_id@);
    let mut i: usize = 0;
    while i < right.reserved_prefixes.len()
        invariant
            i <= right.reserved_prefixes.len(),
            all == texts(right.reserved_prefixes@),
            rule == overlap_rule(left@, left_prefix@, right.module_id@),
            first_problem(all.take(i as int), rule) is None,
        decreases right.reserved_prefixes.len() - i,
    {
        let right_prefix: &str = right.reserved_prefixes[i].as_str();
        proof {
            assert(all[i as int] == right_prefix@);
            assert(rule(all[i as int]) == overlap_problem(
                left@,
                left_prefix@,
                right.module_id@,
                right_prefix@,
            ));
        }
        if starts_with(left_prefix, right_prefix) || starts_with(right_prefix, left_prefix) {
            proof {
                problem_found(all, rule, i as int);
            }
            return Some(
                String::from_str("reserved prefixes '").concat(left_prefix).concat(
                    "' owned by '",
                ).concat(left).concat("' and '").concat(right_prefix).concat(
                    "' owned by '",
                ).concat(right.module_id.as_str()).concat("' overlap"),
            );
        }
        proof {
            passes_on(all, rule, i as int);
        }
        i += 1;
    }
    proof {
        assert(all.take(i as int) =~= all);
    }
    None
}

fn check_pair(left: &ConfiguredModule, right: &ConfiguredModule) -> (r: Option<String>)
    ensures
        tells(r, pair_problem(left@, right@)),
{
    if same(left.module_id.as_str(), right.module_id.as_str()) {
        return None;
    }
    let ghost all = left@.reserved_prefixes;
    let ghost rule = against_rule(left.module_id@, right@);
    let mut i: usize = 0;
    while i < left.reserved_prefixes.len()
        invariant
            i <= left.reserved_prefixes.len(),
            all == texts(left.reserved_prefixes@),
            rule == against_rule(left.module_id@, right@),
            first_problem(all.take(i as int), rule) is None,
            pair_problem(left@, right@) == first_problem(all, rule),
        decreases left.reserved_prefixes.len() - i,
    {
        let problem: Option<String> = check_against(
            left.module_id.as_str(),
            left.reserved_prefixes[i].as_str(),
            right,
        );
        proof {
            assert(all[i as int] == left.reserved_prefixes@[i as int]@);
            assert(rule(all[i as int]) == first_problem(
                right@.reserved_prefixes,
                overlap_rule(left.module_id@, all[i as int], right.module_id@),
            ));
        }
        if problem.is_some() {
            proof {
                problem_found(all, rule, i as int);
            }
            return problem;
        }
        proof {
            passes_on(all, rule, i as int);
        }
        i += 1;
    }
    proof {
        assert(all.take(i as int) =~= all);
    }
    None
}

fn check_following(modules: &Vec<ConfiguredModule>, at: usize) -> (r: Option<String>)
    requires
        at < modules.len(),
    ensures
        tells(
            r,
            first_problem(
                module_views(modules@).skip(at + 1),
                pair_rule(module_views(modules@)[at as int]),
            ),
        ),
{
    let ghost all = module_views(modules@).skip(at + 1);
    let ghost rule = pair_rule(module_views(modules@)[at as int]);
    let mut j: usize = at + 1;
    while j < modules.len()
        invariant
            at < modules.len(),
            at + 1 <= j <= modules.len(),
            all == module_views(modules@).skip(at + 1),
            rule == pair_rule(module_views(modules@)[at as int]),
            first_problem(all.take(j - at - 1), rule) is None,
        decreases modules.len() - j,
    {
        let problem: Option<String> = check_pair(&modules[at], &modules[j]);
        proof {
            assert(all[j - at - 1] == modules@[j as int]@);
            assert(module_views(modules@)[at as int] == modules@[at as int]@);
            assert(rule(all[j - at - 1]) == pair_problem(
                modules@[at as int]@,
                modules@[j as int]@,
            ));
        }
        if problem.is_some() {
            proof {
                problem_found(all, rule, j - at - 1);
            }
            return problem;
        }
        proof {
            passes_on(all, rule, j - at - 1);
        }
        j += 1;
    }
    proof {
        assert(all.take(j - at - 1) =~= all);
    }
    None
}

/// Says what is wrong with the reserved prefixes, if anything is.
pub fn validate_reserved_prefixes(modules: &Vec<ConfiguredModule>) -> (r: Option<String>)
    ensures
        tells(r, prefixes_problem(module_views(modules@))),
{
    let problem: Option<String> = check_owners(modules);
    if problem.is_some() {
        return problem;
    }
    let problem: Option<String> = check_reach(modules);
    if problem.is_some() {
        return problem;
    }
    let ghost views = module_views(modules@);
    let ghost all = places(views.len());
    let ghost rule = following_rule(views);
    let mut i: usize = 0;
    while i < modules.len()
        invariant
            i <= modules.len(),
            views == module_views(modules@),
            all == places(views.len()),
            rule == following_rule(views),
            first_problem(all.take(i as int), rule) is None,
            prefixes_problem(views) == first_problem(all, rule),
        decreases modules.len() - i,
    {
        let problem: Option<String> = check_following(modules, i);
        proof {
            assert(all[i as int] == i as int);
            assert(rule(i as int) == first_problem(
                views.skip(i + 1),
                pair_rule(views[i as int]),
            ));
        }
        if problem.is_some() {
            proof {
                problem_found(all, rule, i as int);
            }
            return problem;
        }
        proof {
            passes_on(all, rule, i as int);
        }
        i += 1;
    }
    proof {
        assert(all.take(i as int) =~= all);
    }
    None
}

/// An accepted prefix belongs to a reserved module and ends at a delimiter, and no
/// configured id starts with it.
pub proof fn an_accepted_prefix_reaches_no_configured_id(
    modules: Seq<ModuleView>,
    i: int,
    p: int,
    j: int,
)
    requires
        prefixes_problem(modules) is None,
        0 <= i < modules.len(),
        0 <= p < modules[i].reserved_prefixes.len(),
        0 <= j < modules.len(),
    ensures
        modules[i].reserved,
        modules[i].reserved_prefixes[p].len() > 0,
        modules[i].reserved_prefixes[p].last() == ':',
        !is_prefix(modules[i].reserved_prefixes[p], modules[j].module_id),
{
    let m = modules[i];
    let prefix = m.reserved_prefixes[p];
    no_problem_means_all_pass(modules, owner_rule());
    assert(owner_rule()(modules[i]) is None);
    no_problem_means_all_pass(m.reserved_prefixes, boundary_rule(m.module_id));
    assert(boundary_rule(m.module_id)(m.reserved_prefixes[p]) is None);
    no_problem_means_all_pass(modules, reach_rule(modules));
    assert(reach_rule(modules)(modules[i]) is None);
    no_problem_means_all_pass(m.reserved_prefixes, prefix_rule(modules, m.module_id));
    assert(prefix_rule(modules, m.module_id)(m.reserved_prefixes[p]) is None);
    no_problem_means_all_pass(modules, collision_rule(m.module_id, prefix));
    assert(collision_rule(m.module_id, prefix)(modules[j]) is None);
}

proof fn later_prefixes_do_not_overlap(modules: Seq<ModuleView>, i: int, p: int, j: int, q: int)
    requires
        prefixes_problem(modules) is None,
        0 <= i < j < modules.len(),
        modules[i].module_id != modules[j].module_id,
        0 <= p < modules[i].reserved_prefixes.len(),
        0 <= q < modules[j].reserved_prefixes.len(),
    ensures
        !is_prefix(modules[i].reserved_prefixes[p], modules[j].reserved_prefixes[q]),
        !is_prefix(modules[j].reserved_prefixes[q], modules[i].reserved_prefixes[p]),
{
    let left = modules[i];
    let right = modules[j];
    let all = places(modules.len());
    no_problem_means_all_pass(all, following_rule(modules));
    assert(all[i] == i);
    assert(following_rule(modules)(all[i]) is None);
    no_problem_means_all_pass(modules.skip(i + 1), pair_rule(left));
    assert(modules.skip(i + 1)[j - i - 1] == right);
    assert(pair_rule(left)(modules.skip(i + 1)[j - i - 1]) is None);
    no_problem_means_all_pass(left.reserved_prefixes, against_rule(left.module_id, right));
    assert(against_rule(left.module_id, right)(left.reserved_prefixes[p]) is None);
    let rule = overlap_rule(left.module_id, left.reserved_prefixes[p], right.module_id);
    no_problem_means_all_pass(right.reserved_prefixes, rule);
    assert(rule(right.reserved_prefixes[q]) is None);
}

/// No accepted prefix starts with a prefix of another owner, so an id is under the
/// prefixes of one owner at most.
pub proof fn accepted_prefixes_of_two_owners_do_not_overlap(
    modules: Seq<ModuleView>,
    i: int,
    p: int,
    j: int,
    q: int,
    id: Seq<char>,
)
    requires
        prefixes_problem(modules) is None,
        0 <= i < modules.len(),
        0 <= j < modules.len(),
        modules[i].module_id != modules[j].module_id,
        0 <= p < modules[i].reserved_prefixes.len(),
        0 <= q < modules[j].reserved_prefixes.len(),
    ensures
        !is_prefix(modules[i].reserved_prefixes[p], modules[j].reserved_prefixes[q]),
        !(is_prefix(modules[i].reserved_prefixes[p], id) && is_prefix(
            modules[j].reserved_prefixes[q],
            id,
        )),
{
    if i < j {
        later_prefixes_do_not_overlap(modules, i, p, j, q);
    } else {
        later_prefixes_do_not_overlap(modules, j, q, i, p);
    }
    let a = modules[i].reserved_prefixes[p];
    let b = modules[j].reserved_prefixes[q];
    if is_prefix(a, id) && is_prefix(b, id) {
        if a.len() <= b.len() {
            assert(b.subrange(0, a.len() as int) =~= id.subrange(0, a.len() as int));
        } else {
            assert(a.subrange(0, b.len() as int) =~= id.subrange(0, b.len() as int));
        }
    }
}

/// A capability that is reserved to a module, with what is known of the two names.
#[derive(Debug)]
pub struct RawReservedCapability {
    pub capability: String,
    /// The capability's name follows the grammar of capability identifiers.
    pub valid_identifier: bool,
    pub module_id: String,
    /// Why the module id cannot be part of a path, if it cannot.
    pub path_hazard: Option<String>,
}

impl Keyed for RawReservedCapability {
    open spec fn key_view(&self) -> Seq<char> {
        self.capability@
    }

    fn key(&self) -> (r: &str) {
        self.capability.as_str()
    }
}

/// What is wrong with a reserved capability.
pub open spec fn binding_problem(binding: RawReservedCapability) -> Option<Seq<char>> {
    let capability = quoted(binding.capability@);
    if !binding.valid_identifier {
        Some(
            "reserved_capabilities key "@ + capability + " is not a valid capability identifier"@,
        )
    } else if trimmed(binding.module_id@).len() == 0 {
        Some(
            "reserved_capabilities binding for "@ + capability + " has an empty module id"@,
        )
    } else {
        match binding.path_hazard {
            Some(reason) => Some(
                "reserved_capabilities binding for "@ + capability
                    + " has an unusable module id "@ + quoted(binding.module_id@) + ": "@
                    + reason@,
            ),
            None => None,
        }
    }
}

/// The rule for the reserved capabilities.
pub open spec fn binding_rule() -> spec_fn(RawReservedCapability) -> Option<Seq<char>> {
    |binding: RawReservedCapability| binding_problem(binding)
}

fn check_binding(binding: &RawReservedCapability) -> (r: Option<String>)
    ensures
        tells(r, binding_problem(*binding)),
{
    let capability: String = quote_debug(binding.capability.as_str());
    if !binding.valid_identifier {
        return Some(
            String::from_str("reserved_capabilities key ").concat(capability.as_str()).concat(
                " is not a valid capability identifier",
            ),
        );
    }
    if trim(binding.module_id.as_str()).unicode_len() == 0 {
        return Some(
            String::from_str("reserved_capabilities binding for ").concat(
                capability.as_str(),
            ).concat(" has an empty module id"),
        );
    }
    match &binding.path_hazard {
        Some(reason) => Some(
            String::from_str("reserved_capabilities binding for ").concat(
                capability.as_str(),
            ).concat(" has an unusable module id ").concat(
                quote_debug(binding.module_id.as_str()).as_str(),
            ).concat(": ").concat(reason.as_str()),
        ),
        None => None,
    }
}

/// Says what is wrong with the reserved capabilities, if anything is. A binding
/// may name a module that is not configured yet.
pub fn validate_reserved_capabilities(bindings: &Vec<RawReservedCapability>) -> (r: Option<String>)
    ensures
        tells(r, first_problem(bindings@, binding_rule())),
{
    let ghost all = bindings@;
    let ghost rule = binding_rule();
    let mut i: usize = 0;
    while i < bindings.len()
        invariant
            i <= bindings.len(),
            all == bindings@,
            rule == binding_rule(),
            first_problem(all.take(i as int), rule) is None,
        decreases bindings.len() - i,
    {
        let problem: Option<String> = check_binding(&bindings[i]);
        proof {
            assert(rule(all[i as int]) == binding_problem(all[i as int]));
        }
        if problem.is_some() {
            proof {
                problem_found(all, rule, i as int);
            }
            return problem;
        }
        proof {
            passes_on(all, rule, i as int);
        }
        i += 1;
    }
    proof {
        assert(all.take(i as int) =~= all);
    }
    None
}

/// The first module of that id.
pub open spec fn module_named(modules: Seq<ModuleView>, id: Seq<char>) -> Option<ModuleView>
    decreases modules.len(),
{
    if modules.len() == 0 {
        None
    } else {
        match module_named(modules.drop_last(), id) {
            Some(m) => Some(m),
            None => if modules.last().module_id == id {
                Some(modules.last())
            } else {
                None
            },
        }
    }
}

/// The list names a module and holds no empty name.
pub open spec fn names_targets(targets: Seq<Seq<char>>) -> bool {
    targets.len() > 0 && forall|i: int| 0 <= i < targets.len() ==> (#[trigger] targets[i]).len() > 0
}

/// What is wrong with the configuration of admission facts.
pub open spec fn admission_facts_problem(
    modules: Seq<ModuleView>,
    carrier: Option<Seq<char>>,
    targets: Option<Seq<Seq<char>>>,
) -> Option<Seq<char>> {
    match carrier {
        None => None,
        Some(id) => match module_named(modules, id) {
            None => Some(
                "admission_facts_carrier_module_id '"@ + id
                    + "' must name a configured module"@,
            ),
            Some(m) => if !m.enabled || !m.reserved {
                Some(
                    "admission_facts_carrier_module_id '"@ + id
                        + "' must name an enabled reserved module"@,
                )
            } else {
                match targets {
                    None => Some(
                        "admission_facts_targets must be present when an admission facts carrier is configured"@,
                    ),
                    Some(targets) => if names_targets(targets) {
                        None
                    } else {
                        Some(
                            "admission_facts_targets must be non-empty and must not contain empty module ids"@,
                        )
                    },
                }
            },
        },
    }
}

proof fn named_in_a_prefix(modules: Seq<ModuleView>, id: Seq<char>, i: int)
    requires
        0 <= i < modules.len(),
        module_named(modules.take(i), id) is None,
        modules[i].module_id == id,
    ensures
        module_named(modules, id) == Some(modules[i]),
    decreases modules.len(),
{
    if i == modules.len() - 1 {
        assert(modules.drop_last() =~= modules.take(i));
    } else {
        assert(modules.drop_last().take(i) =~= modules.take(i));
        named_in_a_prefix(modules.drop_last(), id, i);
    }
}

fn find_module(modules: &Vec<ConfiguredModule>, id: &str) -> (r: Option<usize>)
    ensures
        r is None <==> module_named(module_views(modules@), id@) is None,
        r matches Some(i) ==> i < modules@.len() && module_named(module_views(modules@), id@)
            == Some(modules@[i as int]@),
{
    let ghost all = module_views(modules@);
    let mut i: usize = 0;
    while i < modules.len()
        invariant
            i <= modules.len(),
            all == module_views(modules@),
            module_named(all.take(i as int), id@) is None,
        decreases modules.len() - i,
    {
        proof {
            assert(all[i as int] == modules@[i as int]@);
            assert(all.take(i + 1).drop_last() =~= all.take(i as int));
        }
        if same(modules[i].module_id.as_str(), id) {
            proof {
                named_in_a_prefix(all, id@, i as int);
            }
            return Some(i);
        }
        i += 1;
    }
    proof {
        assert(all.take(i as int) =~= all);
    }
    None
}

fn are_targets(targets: &Vec<String>) -> (r: bool)
    ensures
        r == names_targets(texts(targets@)),
{
    if targets.len() == 0 {
        return false;
    }
    let mut i: usize = 0;
    while i < targets.len()
        invariant
            i <= targets.len(),
            forall|j: int| 0 <= j < i ==> (#[trigger] targets@[j])@.len() > 0,
        decreases targets.len() - i,
    {
        if targets[i].as_str().unicode_len() == 0 {
            proof {
                assert(texts(targets@)[i as int].len() == 0);
            }
            return false;
        }
        i += 1;
    }
    proof {
        assert forall|j: int| 0 <= j < texts(targets@).len() implies (#[trigger] texts(
            targets@,
        )[j]).len() > 0 by {
            assert(targets@[j]@.len() > 0);
        }
    }
    true
}

/// The lists of an optional list of strings.
pub open spec fn text_list(list: Option<Vec<String>>) -> Option<Seq<Seq<char>>> {
    match list {
        Some(list) => Some(texts(list@)),
        None => None,
    }
}

/// Says what is wrong with the configuration of admission facts, if anything is.
pub fn validate_admission_facts_config(
    modules: &Vec<ConfiguredModule>,
    carrier_module_id: Option<&str>,
    targets: &Option<Vec<String>>,
) -> (r: Option<String>)
    ensures
        tells(
            r,
            admission_facts_problem(
                module_views(modules@),
                match carrier_module_id {
                    Some(id) => Some(id@),
                    None => None,
                },
                text_list(*targets),
            ),
        ),
{
    let id: &str = match carrier_module_id {
        None => return None,
        Some(id) => id,
    };
    let at: usize = match find_module(modules, id) {
        None => return Some(
            String::from_str("admission_facts_carrier_module_id '").concat(id).concat(
                "' must name a configured module",
            ),
        ),
        Some(at) => at,
    };
    if !modules[at].enabled || !modules[at].reserved {
        return Some(
            String::from_str("admission_facts_carrier_module_id '").concat(id).concat(
                "' must name an enabled reserved module",
            ),
        );
    }
    match targets {
        None => Some(
            String::from_str(
                "admission_facts_targets must be present when an admission facts carrier is configured",
            ),
        ),
        Some(targets) => if are_targets(targets) {
            None
        } else {
            Some(
                String::from_str(
                    "admission_facts_targets must be non-empty and must not contain empty module ids",
                ),
            )
        },
    }
}

proof fn a_named_module_is_there(modules: Seq<ModuleView>, id: Seq<char>) -> (i: int)
    requires
        module_named(modules, id) is Some,
    ensures
        0 <= i < modules.len(),
        modules[i].module_id == id,
        module_named(modules, id) == Some(modules[i]),
    decreases modules.len(),
{
    if module_named(modules.drop_last(), id) is Some {
        a_named_module_is_there(modules.drop_last(), id)
    } else {
        modules.len() - 1
    }
}

/// An accepted carrier of admission facts is a configured module that runs and
/// whose id only the process that the daemon spawned may take, and the modules
/// that it may carry them to are named.
pub proof fn an_accepted_carrier_is_a_reserved_module(
    modules: Seq<ModuleView>,
    carrier: Seq<char>,
    targets: Option<Seq<Seq<char>>>,
)
    requires
        admission_facts_problem(modules, Some(carrier), targets) is None,
    ensures
        exists|i: int|
            0 <= i < modules.len() && (#[trigger] modules[i]).module_id == carrier
                && modules[i].enabled && modules[i].reserved,
        targets matches Some(t) && names_targets(t),
{
    let i = a_named_module_is_there(modules, carrier);
    assert(modules[i].module_id == carrier);
}

/// An accepted capability is reserved to a module that is named and whose name
/// can be part of a path, whether or not that module is configured.
pub proof fn an_accepted_binding_names_a_module(bindings: Seq<RawReservedCapability>, i: int)
    requires
        first_problem(bindings, binding_rule()) is None,
        0 <= i < bindings.len(),
    ensures
        bindings[i].valid_identifier,
        trimmed(bindings[i].module_id@).len() > 0,
        bindings[i].path_hazard is None,
{
    no_problem_means_all_pass(bindings, binding_rule());
    assert(binding_rule()(bindings[i]) == binding_problem(bindings[i]));
}

} // verus!
