//! How many `route.bind` relays each target module has in flight.
use crate::text_map::TextMap;
use vstd::prelude::*;

verus! {

/// The live relay admissions by target module. A module with none has no entry.
#[derive(Debug)]
pub struct RouteBindConcurrency {
    modules: TextMap<usize>,
}

impl View for RouteBindConcurrency {
    type V = Map<Seq<char>, usize>;

    closed spec fn view(&self) -> Map<Seq<char>, usize> {
        self.modules@
    }
}

/// The relays of `id` that are in flight.
pub open spec fn in_flight(m: Map<Seq<char>, usize>, id: Seq<char>) -> usize {
    if m.dom().contains(id) {
        m[id]
    } else {
        0
    }
}

/// The counts after one more relay of `id`.
pub open spec fn admitted(m: Map<Seq<char>, usize>, id: Seq<char>) -> Map<Seq<char>, usize> {
    m.insert(id, (in_flight(m, id) + 1) as usize)
}

/// The counts after one relay of `id` has settled.
pub open spec fn released(m: Map<Seq<char>, usize>, id: Seq<char>) -> Map<Seq<char>, usize> {
    if in_flight(m, id) <= 1 {
        m.remove(id)
    } else {
        m.insert(id, (in_flight(m, id) - 1) as usize)
    }
}

impl RouteBindConcurrency {
    /// The keys are in order, and every entry counts something.
    pub closed spec fn wf(&self) -> bool {
        &&& self.modules.wf()
        &&& forall|id: Seq<char>| #[trigger]
            self.modules@.dom().contains(id) ==> self.modules@[id] > 0
    }

    /// Only modules with a relay in flight have an entry.
    pub proof fn idle_modules_have_no_entry(&self, id: Seq<char>)
        requires
            self.wf(),
        ensures
            self@.dom().contains(id) <==> in_flight(self@, id) > 0,
    {
    }

    /// No relay in flight.
    pub fn new() -> (r: RouteBindConcurrency)
        ensures
            r.wf(),
            r@ == Map::<Seq<char>, usize>::empty(),
    {
        RouteBindConcurrency { modules: TextMap::new() }
    }

    /// Counts one more relay to the module unless it has `limit` in flight;
    /// then says how many it has. Never waits.
    pub fn try_admit(&mut self, module_id: &str, limit: usize) -> (r: Result<(), usize>)
        requires
            old(self).wf(),
        ensures
            final(self).wf(),
            r is Ok <==> in_flight(old(self)@, module_id@) < limit,
            r is Ok ==> final(self)@ == admitted(old(self)@, module_id@),
            r matches Err(n) ==> n == in_flight(old(self)@, module_id@) && final(self)@ == old(
                self,
            )@,
    {
        let count: usize = match self.modules.get(module_id) {
            Some(count) => *count,
            None => 0,
        };
        if count >= limit {
            return Err(count);
        }
        self.modules.insert(module_id, count + 1);
        Ok(())
    }

    /// A counted relay has settled.
    pub fn release(&mut self, module_id: &str)
        requires
            old(self).wf(),
            in_flight(old(self)@, module_id@) > 0,
        ensures
            final(self).wf(),
            final(self)@ == released(old(self)@, module_id@),
    {
        let count: usize = match self.modules.get(module_id) {
            Some(count) => *count,
            None => 0,
        };
        if count <= 1 {
            let _ = self.modules.remove(module_id);
        } else {
            self.modules.insert(module_id, count - 1);
        }
    }
}

/// Counting a relay and settling it leaves the counts as they were.
pub proof fn release_undoes_admission(m: Map<Seq<char>, usize>, id: Seq<char>)
    requires
        in_flight(m, id) < usize::MAX,
        m.dom().contains(id) ==> m[id] > 0,
    ensures
        released(admitted(m, id), id) == m,
{
    assert(released(admitted(m, id), id) =~= m);
}

/// A count that is within the limit stays within it whatever is counted or
/// settled, of this module or of another.
pub proof fn the_limit_is_never_passed(
    m: Map<Seq<char>, usize>,
    id: Seq<char>,
    other: Seq<char>,
    limit: usize,
)
    requires
        in_flight(m, id) <= limit,
    ensures
        in_flight(m, other) < limit ==> in_flight(admitted(m, other), id) <= limit,
        in_flight(released(m, other), id) <= limit,
{
}

} // verus!
