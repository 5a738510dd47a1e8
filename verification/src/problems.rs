//! The first thing that is wrong with the elements of a list.
use vstd::prelude::*;

verus! {

/// What the rule says of the first element that it finds fault with.
pub open spec fn first_problem<A>(
    s: Seq<A>,
    rule: spec_fn(A) -> Option<Seq<char>>,
) -> Option<Seq<char>>
    decreases s.len(),
{
    if s.len() == 0 {
        None
    } else {
        match first_problem(s.drop_last(), rule) {
            Some(problem) => Some(problem),
            None => rule(s.last()),
        }
    }
}

/// No element is at fault exactly when the rule passes each of them.
pub proof fn no_problem_means_all_pass<A>(s: Seq<A>, rule: spec_fn(A) -> Option<Seq<char>>)
    ensures
        first_problem(s, rule) is None <==> forall|i: int|
            0 <= i < s.len() ==> rule(#[trigger] s[i]) is None,
    decreases s.len(),
{
    if s.len() > 0 {
        no_problem_means_all_pass(s.drop_last(), rule);
        if first_problem(s, rule) is None {
            assert forall|i: int| 0 <= i < s.len() implies rule(#[trigger] s[i]) is None by {
                if i < s.len() - 1 {
                    assert(s.drop_last()[i] == s[i]);
                }
            }
        }
        if forall|i: int| 0 <= i < s.len() ==> rule(#[trigger] s[i]) is None {
            assert forall|i: int| 0 <= i < s.drop_last().len() implies rule(
                #[trigger] s.drop_last()[i],
            ) is None by {
                assert(s.drop_last()[i] == s[i]);
            }
            assert(rule(s[s.len() - 1]) is None);
        }
    }
}

/// One more element that passes.
pub(crate) proof fn passes_on<A>(s: Seq<A>, rule: spec_fn(A) -> Option<Seq<char>>, i: int)
    requires
        0 <= i < s.len(),
        first_problem(s.take(i), rule) is None,
        rule(s[i]) is None,
    ensures
        first_problem(s.take(i + 1), rule) is None,
{
    assert(s.take(i + 1).drop_last() =~= s.take(i));
}

/// The element at fault after some that pass.
pub(crate) proof fn problem_found<A>(s: Seq<A>, rule: spec_fn(A) -> Option<Seq<char>>, i: int)
    requires
        0 <= i < s.len(),
        first_problem(s.take(i), rule) is None,
        rule(s[i]) is Some,
    ensures
        first_problem(s, rule) == rule(s[i]),
    decreases s.len(),
{
    if i == s.len() - 1 {
        assert(s.drop_last() =~= s.take(i));
    } else {
        assert(s.drop_last().take(i) =~= s.take(i));
        problem_found(s.drop_last(), rule, i);
    }
}

} // verus!
