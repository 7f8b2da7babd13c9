//! Signal sets: the non-empty collections of OS signal identifiers that a
//! handler registration covers.

use vstd::prelude::*;

verus! {

/// A non-empty set of OS signal identifiers, held with each identifier
/// exactly once. Identifiers are the platform's plain signal numbers; the
/// set itself carries no platform meaning beyond "register the trampoline
/// for each of these".
pub struct SignalSet {
    ids: Vec<i32>,
}

impl View for SignalSet {
    type V = Set<i32>;

    closed spec fn view(&self) -> Set<i32> {
        self.ids@.to_set()
    }
}

impl SignalSet {
    /// The identifiers are held each exactly once, and there is at least one
    /// of them.
    pub closed spec fn wf(&self) -> bool {
        self.ids@.no_duplicates() && self.ids@.len() >= 1
    }

    /// Build the set from the requested identifiers. An empty request is
    /// rejected, since a registration that covers no signal would silently
    /// never fire; duplicates collapse, since registering the same signal
    /// twice in one call is one registration.
    pub fn new(requested: Vec<i32>) -> (r: Option<SignalSet>)
        ensures
            r is Some <==> requested@.len() >= 1,
            r matches Some(s) ==> s.wf() && s@ == requested@.to_set(),
    {
        if requested.len() == 0 {
            return None;
        }
        let mut ids: Vec<i32> = Vec::new();
        let mut k: usize = 0;
        while k < requested.len()
            invariant
                k <= requested@.len(),
                ids@.no_duplicates(),
                forall|x: i32| ids@.contains(x) ==> requested@.contains(x),
                forall|j: int| 0 <= j < k ==> ids@.contains(#[trigger] requested@[j]),
            decreases requested@.len() - k,
        {
            let id = requested[k];
            if !contains_id(&ids, id) {
                let ghost before = ids@;
                ids.push(id);
                proof {
                    assert forall|x: i32| ids@.contains(x) implies requested@.contains(
                        x,
                    ) by {
                        if x != id {
                            assert(before.push(id).len() == before.len() + 1);
                            let w = choose|w: int|
                                0 <= w < ids@.len() && ids@[w] == x;
                            assert(before[w] == x);
                        } else {
                            assert(requested@[k as int] == x);
                        }
                    }
                    assert forall|i: int, j: int|
                        0 <= i < ids@.len() && 0 <= j < ids@.len() && i != j implies ids@[i]
                        != ids@[j] by {
                        if i == before.len() as int {
                            assert(before[j] == ids@[j]);
                            assert(!before.contains(ids@[i]));
                        } else if j == before.len() as int {
                            assert(before[i] == ids@[i]);
                            assert(!before.contains(ids@[j]));
                        } else {
                            assert(before[i] == ids@[i] && before[j] == ids@[j]);
                        }
                    }
                    assert forall|j: int| 0 <= j < k + 1 implies ids@.contains(
                        #[trigger] requested@[j],
                    ) by {
                        if j < k {
                            let w = choose|w: int|
                                0 <= w < before.len() && before[w] == requested@[j];
                            assert(ids@[w] == requested@[j]);
                        } else {
                            assert(ids@[before.len() as int] == id);
                        }
                    }
                }
            }
            k = k + 1;
        }
        proof {
            assert forall|x: i32| requested@.contains(x) implies ids@.contains(x) by {
                let j = choose|j: int| 0 <= j < requested@.len() && requested@[j] == x;
                assert(ids@.contains(requested@[j]));
            }
            assert(ids@.to_set() =~= requested@.to_set());
            assert(ids@.contains(requested@[0]));
            assert(ids@.len() >= 1);
        }
        Some(SignalSet { ids })
    }

    /// Whether the set covers the given identifier.
    pub fn contains(&self, id: i32) -> (r: bool)
        ensures
            r == self@.contains(id),
    {
        contains_id(&self.ids, id)
    }

    /// How many distinct identifiers the set covers; at least one for a
    /// well-formed set.
    pub fn len(&self) -> (n: usize)
        requires
            self.wf(),
        ensures
            n == self@.len(),
            n >= 1,
    {
        proof {
            self.ids@.unique_seq_to_set();
        }
        self.ids.len()
    }

    /// The identifiers, each exactly once, for the registration loop to walk.
    pub fn ids(&self) -> (r: &Vec<i32>)
        requires
            self.wf(),
        ensures
            r@.no_duplicates(),
            r@.to_set() == self@,
            r@.len() >= 1,
    {
        &self.ids
    }
}

/// Whether `v` holds `id` somewhere.
fn contains_id(v: &Vec<i32>, id: i32) -> (r: bool)
    ensures
        r == v@.contains(id),
{
    let mut k: usize = 0;
    while k < v.len()
        invariant
            k <= v@.len(),
            forall|j: int| 0 <= j < k ==> v@[j] != id,
        decreases v@.len() - k,
    {
        if v[k] == id {
            return true;
        }
        k = k + 1;
    }
    false
}

} // verus!
