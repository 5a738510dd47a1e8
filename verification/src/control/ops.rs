//! The operations on channel 0: which the daemon serves, which a module serves.
use crate::text::{contains_text, same, texts};
use vstd::prelude::*;

verus! {

/// The one operation that a module may ask of the daemon.
pub const CATALOG_UPDATE: &'static str = "catalog.update";

/// The operation by which the daemon asks a module how it is.
pub const HEALTH_CHECK: &'static str = "health.check";

/// The operation by which the daemon hands a module a new route.
pub const ROUTE_BIND: &'static str = "route.bind";

/// The push by which a module reports the status of a route.
pub const ROUTE_STATUS: &'static str = "route.status";

/// The operations that the daemon serves to clients, in the order in which it
/// lists them.
pub open spec fn subc_op_names() -> Seq<Seq<char>> {
    seq![
        "server.describe"@,
        "catalog.list"@,
        "route.open"@,
        "route.poll"@,
        "route.closing"@,
        "route.closed"@,
        "supervisor.list"@,
        "supervisor.restart"@,
        "supervisor.reload"@,
        "supervisor.rescan"@,
        "supervisor.release_reserved"@,
        "supervisor.set_enabled"@,
        "supervisor.health_probe"@,
        "supervisor.health"@,
        "supervisor.stderr_tail"@,
        "supervisor.terminals"@,
        "supervisor.routes"@,
        "supervisor.provenance"@,
        "supervisor.spawn_snapshot"@,
        "supervisor.spawn_subscribe"@,
    ]
}

/// The operations that the daemon serves to modules alone.
pub open spec fn module_to_subc_op_names() -> Seq<Seq<char>> {
    seq![CATALOG_UPDATE@]
}

/// The operations that every module serves, whatever it declares.
pub open spec fn baseline_op_names() -> Seq<Seq<char>> {
    seq![ROUTE_BIND@, ROUTE_STATUS@]
}

/// The operations that the daemon serves to clients.
pub fn subc_ops() -> (r: Vec<String>)
    ensures
        texts(r@) == subc_op_names(),
{
    let r: Vec<String> = vec![
        String::from_str("server.describe"),
        String::from_str("catalog.list"),
        String::from_str("route.open"),
        String::from_str("route.poll"),
        String::from_str("route.closing"),
        String::from_str("route.closed"),
        String::from_str("supervisor.list"),
        String::from_str("supervisor.restart"),
        String::from_str("supervisor.reload"),
        String::from_str("supervisor.rescan"),
        String::from_str("supervisor.release_reserved"),
        String::from_str("supervisor.set_enabled"),
        String::from_str("supervisor.health_probe"),
        String::from_str("supervisor.health"),
        String::from_str("supervisor.stderr_tail"),
        String::from_str("supervisor.terminals"),
        String::from_str("supervisor.routes"),
        String::from_str("supervisor.provenance"),
        String::from_str("supervisor.spawn_snapshot"),
        String::from_str("supervisor.spawn_subscribe"),
    ];
    proof {
        assert(texts(r@) =~= subc_op_names());
    }
    r
}

/// The operations that the daemon serves to modules: those of clients and its own
/// one.
pub fn module_subc_ops() -> (r: Vec<String>)
    ensures
        texts(r@) == subc_op_names() + module_to_subc_op_names(),
{
    let mut r: Vec<String> = subc_ops();
    let ghost was = r@;
    r.push(String::from_str(CATALOG_UPDATE));
    proof {
        assert(texts(r@) =~= texts(was) + module_to_subc_op_names());
    }
    r
}

/// The operations that every module serves.
pub fn module_baseline_control_ops() -> (r: Vec<String>)
    ensures
        texts(r@) == baseline_op_names(),
{
    let r: Vec<String> = vec![String::from_str(ROUTE_BIND), String::from_str(ROUTE_STATUS)];
    proof {
        assert(texts(r@) =~= baseline_op_names());
    }
    r
}

/// The elements of `s`, each where it occurs first.
pub open spec fn first_occurrences(s: Seq<Seq<char>>) -> Seq<Seq<char>>
    decreases s.len(),
{
    if s.len() == 0 {
        Seq::empty()
    } else {
        let before = first_occurrences(s.drop_last());
        if before.contains(s.last()) {
            before
        } else {
            before.push(s.last())
        }
    }
}

/// The operations that a module grants: the baseline, then what it declares
/// beyond it, nothing twice.
pub open spec fn effective_ops(declared: Option<Seq<Seq<char>>>) -> Seq<Seq<char>> {
    match declared {
        Some(declared) => first_occurrences(baseline_op_names() + declared),
        None => baseline_op_names(),
    }
}

proof fn baseline_has_no_repeats()
    ensures
        first_occurrences(baseline_op_names()) == baseline_op_names(),
{
    reveal_strlit("route.bind");
    reveal_strlit("route.status");
    let b = baseline_op_names();
    assert(ROUTE_BIND@[6] != ROUTE_STATUS@[6]);
    assert(b.drop_last() =~= seq![ROUTE_BIND@]);
    assert(b.drop_last().drop_last() =~= Seq::empty());
    assert(first_occurrences(b.drop_last()) =~= seq![ROUTE_BIND@]) by {
        reveal_with_fuel(first_occurrences, 2);
    }
    assert(!first_occurrences(b.drop_last()).contains(ROUTE_STATUS@));
    assert(first_occurrences(b) =~= b);
}

/// The operations that a module grants.
pub fn effective_module_control_ops(declared: Option<Vec<String>>) -> (r: Vec<String>)
    ensures
        texts(r@) == effective_ops(
            match declared {
                Some(d) => Some(texts(d@)),
                None => None,
            },
        ),
{
    let mut effective: Vec<String> = module_baseline_control_ops();
    let declared: Vec<String> = match declared {
        Some(declared) => declared,
        None => {
            return effective;
        },
    };
    let ghost all = baseline_op_names() + texts(declared@);
    proof {
        baseline_has_no_repeats();
        assert(all.take(2) =~= baseline_op_names());
    }
    let mut i: usize = 0;
    while i < declared.len()
        invariant
            i <= declared.len(),
            all == baseline_op_names() + texts(declared@),
            texts(effective@) == first_occurrences(all.take(2 + i as int)),
        decreases declared.len() - i,
    {
        let ghost was = effective@;
        proof {
            let next = all.take(3 + i as int);
            assert(next.drop_last() =~= all.take(2 + i as int));
            assert(next.last() == declared@[i as int]@);
        }
        if !contains_text(&effective, declared[i].as_str()) {
            effective.push(declared[i].clone());
            proof {
                assert(texts(effective@) =~= texts(was).push(declared@[i as int]@));
            }
        }
        i += 1;
    }
    proof {
        assert(all.take(2 + i as int) =~= all);
    }
    effective
}

/// Whether a registration with these operations serves `op`.
pub open spec fn grants(control_ops: Seq<Seq<char>>, op: Seq<char>) -> bool {
    baseline_op_names().contains(op) || control_ops.contains(op)
}

/// Whether a registration serves `op`.
pub fn module_registration_grants_op(control_ops: &Vec<String>, op: &str) -> (r: bool)
    ensures
        r == grants(texts(control_ops@), op@),
{
    contains_text(&module_baseline_control_ops(), op) || contains_text(control_ops, op)
}

/// Each element is kept once, and none is invented or lost.
pub proof fn first_occurrences_keep_every_element_once(s: Seq<Seq<char>>)
    ensures
        first_occurrences(s).no_duplicates(),
        forall|x: Seq<char>| first_occurrences(s).contains(x) <==> #[trigger] s.contains(x),
    decreases s.len(),
{
    if s.len() > 0 {
        let rest = s.drop_last();
        let kept = first_occurrences(rest);
        first_occurrences_keep_every_element_once(rest);
        assert forall|x: Seq<char>| first_occurrences(s).contains(x) <==> #[trigger] s.contains(
            x,
        ) by {
            if s.contains(x) {
                let i = choose|i: int| 0 <= i < s.len() && s[i] == x;
                if i < rest.len() {
                    assert(rest[i] == x);
                    assert(rest.contains(x));
                    let j = choose|j: int| 0 <= j < kept.len() && kept[j] == x;
                    assert(first_occurrences(s)[j] == x);
                } else if !kept.contains(x) {
                    assert(first_occurrences(s)[kept.len() as int] == x);
                }
            }
            if first_occurrences(s).contains(x) {
                let j = choose|j: int|
                    0 <= j < first_occurrences(s).len() && first_occurrences(s)[j] == x;
                if j < kept.len() {
                    assert(kept[j] == x);
                    assert(kept.contains(x));
                    assert(rest.contains(x));
                    let i = choose|i: int| 0 <= i < rest.len() && rest[i] == x;
                    assert(s[i] == x);
                } else {
                    assert(s[s.len() - 1] == x);
                }
            }
        }
    }
}

/// Nothing is taken out of a list without repeats.
pub proof fn first_occurrences_of_distinct(s: Seq<Seq<char>>)
    requires
        s.no_duplicates(),
    ensures
        first_occurrences(s) == s,
    decreases s.len(),
{
    if s.len() > 0 {
        let rest = s.drop_last();
        first_occurrences_of_distinct(rest);
        assert(!rest.contains(s.last())) by {
            if rest.contains(s.last()) {
                let i = choose|i: int| 0 <= i < rest.len() && rest[i] == s.last();
                assert(s[i] == s[s.len() - 1]);
            }
        }
        assert(rest.push(s.last()) =~= s);
    } else {
        assert(first_occurrences(s) =~= s);
    }
}

/// A registered module serves exactly the baseline and what it declared.
pub proof fn a_registration_grants_the_baseline_and_what_it_declared(
    declared: Option<Seq<Seq<char>>>,
    op: Seq<char>,
)
    ensures
        effective_ops(declared).no_duplicates(),
        grants(effective_ops(declared), op) <==> baseline_op_names().contains(op) || (
        declared matches Some(d) && d.contains(op)),
        forall|b: Seq<char>|
            baseline_op_names().contains(b) ==> #[trigger] effective_ops(declared).contains(b),
{
    baseline_has_no_repeats();
    first_occurrences_keep_every_element_once(baseline_op_names());
    if let Some(d) = declared {
        let all = baseline_op_names() + d;
        first_occurrences_keep_every_element_once(all);
        assert forall|x: Seq<char>| all.contains(x) <==> baseline_op_names().contains(x)
            || d.contains(x) by {
            if baseline_op_names().contains(x) {
                let i = choose|i: int| 0 <= i < 2 && baseline_op_names()[i] == x;
                assert(all[i] == x);
            }
            if d.contains(x) {
                let i = choose|i: int| 0 <= i < d.len() && d[i] == x;
                assert(all[2 + i] == x);
            }
            if all.contains(x) {
                let i = choose|i: int| 0 <= i < all.len() && all[i] == x;
                if i < 2 {
                    assert(baseline_op_names()[i] == x);
                } else {
                    assert(d[i - 2] == x);
                }
            }
        }
        assert forall|b: Seq<char>|
            baseline_op_names().contains(b) implies #[trigger] effective_ops(declared).contains(
            b,
        ) by {
            assert(all.contains(b));
        }
    }
}

/// Whether `op` is a push that the daemon knows; another is ignored, so that a
/// newer module can send it.
pub fn is_known_module_push_op(op: Option<&str>) -> (r: bool)
    ensures
        r == (op matches Some(op) && op@ == ROUTE_STATUS@),
{
    match op {
        Some(op) => same(op, ROUTE_STATUS),
        None => false,
    }
}

/// Whether `op` is a request that a module may send.
pub fn is_known_module_request_op(op: Option<&str>) -> (r: bool)
    ensures
        r == (op matches Some(op) && module_to_subc_op_names().contains(op@)),
{
    match op {
        Some(op) => {
            proof {
                assert(module_to_subc_op_names()[0] == CATALOG_UPDATE@);
            }
            same(op, CATALOG_UPDATE)
        },
        None => false,
    }
}

/// What is wrong with a request body that is not a request.
#[derive(Clone, Copy, Debug, PartialEq, Eq, Structural)]
pub enum ControlRequestBodyError {
    /// It names an operation that is not served.
    UnknownOp,
    /// It names a served operation, or none at all, and does not fit.
    InvalidBody,
}

/// What is wrong with a body that is not a request, by the operation it names.
pub open spec fn body_error(op: Option<Seq<char>>, served: Seq<Seq<char>>) -> ControlRequestBodyError {
    match op {
        Some(op) => if served.contains(op) {
            ControlRequestBodyError::InvalidBody
        } else {
            ControlRequestBodyError::UnknownOp
        },
        None => ControlRequestBodyError::InvalidBody,
    }
}

/// What is wrong with a client's body that is not a request.
pub fn classify_client_body(op: Option<&str>) -> (r: ControlRequestBodyError)
    ensures
        r == body_error(
            match op {
                Some(op) => Some(op@),
                None => None,
            },
            subc_op_names(),
        ),
{
    match op {
        Some(op) => if contains_text(&subc_ops(), op) {
            ControlRequestBodyError::InvalidBody
        } else {
            ControlRequestBodyError::UnknownOp
        },
        None => ControlRequestBodyError::InvalidBody,
    }
}

/// What is wrong with a module's body that is not a request.
pub fn classify_module_body(op: Option<&str>) -> (r: ControlRequestBodyError)
    ensures
        r == body_error(
            match op {
                Some(op) => Some(op@),
                None => None,
            },
            module_to_subc_op_names(),
        ),
{
    match op {
        Some(_) => if is_known_module_request_op(op) {
            ControlRequestBodyError::InvalidBody
        } else {
            ControlRequestBodyError::UnknownOp
        },
        None => ControlRequestBodyError::InvalidBody,
    }
}

} // verus!
