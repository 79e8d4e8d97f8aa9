use vstd::prelude::*;
use vstd::std_specs::hash::group_hash_axioms;
use std::collections::HashMap;

verus! {

broadcast use group_hash_axioms;

/// Reference counts of live foreign objects, keyed by object identity (the
/// object's address). An identity is present exactly while its object is
/// alive; its count is then at least one.
pub struct RefcountTable {
    counts: HashMap<u64, u64>,
}

impl View for RefcountTable {
    type V = Map<u64, u64>;

    closed spec fn view(&self) -> Map<u64, u64> {
        self.counts@
    }
}

/// Every live identity holds at least one reference.
pub open spec fn counts_positive(m: Map<u64, u64>) -> bool {
    forall|id: u64| #[trigger] m.contains_key(id) ==> m[id] >= 1
}

/// The table after a freshly built object is registered with one reference.
pub open spec fn registered(m: Map<u64, u64>, id: u64) -> Map<u64, u64> {
    m.insert(id, 1)
}

/// The table after one more reference is taken; an unknown identity is left
/// alone, and a count at the largest value stays there.
pub open spec fn ref_added(m: Map<u64, u64>, id: u64) -> Map<u64, u64> {
    if m.contains_key(id) && m[id] < u64::MAX {
        m.insert(id, (m[id] + 1) as u64)
    } else {
        m
    }
}

/// The table after one reference is dropped, and whether that was the last
/// one, so that the object is to be freed.
pub open spec fn ref_released(m: Map<u64, u64>, id: u64) -> (Map<u64, u64>, bool) {
    if !m.contains_key(id) {
        (m, false)
    } else if m[id] <= 1 {
        (m.remove(id), true)
    } else {
        (m.insert(id, (m[id] - 1) as u64), false)
    }
}

pub open spec fn holds_one_ref(m: Map<u64, u64>, id: u64) -> bool {
    m.contains_key(id) && m[id] == 1
}

pub open spec fn holds_any_ref(m: Map<u64, u64>, id: u64) -> bool {
    m.contains_key(id)
}

impl RefcountTable {
    pub fn new() -> (r: RefcountTable)
        ensures
            r@ == Map::<u64, u64>::empty(),
            counts_positive(r@),
    {
        RefcountTable { counts: HashMap::new() }
    }

    /// Starts tracking a freshly built object with one reference.
    pub fn register(&mut self, id: u64)
        ensures
            final(self)@ == registered(old(self)@, id),
            counts_positive(old(self)@) ==> counts_positive(final(self)@),
    {
        self.counts.insert(id, 1);
    }

    /// Takes one more reference to a live object; does nothing for an unknown one.
    pub fn add_ref(&mut self, id: u64)
        ensures
            final(self)@ == ref_added(old(self)@, id),
            counts_positive(old(self)@) ==> counts_positive(final(self)@),
    {
        match self.counts.get(&id) {
            Some(c) => {
                let c = *c;
                if c < u64::MAX {
                    self.counts.insert(id, c + 1);
                }
            },
            None => {},
        }
    }

    /// Drops one reference; returns true exactly when it was the last one, in
    /// which case the identity leaves the table and the caller frees the object.
    pub fn release(&mut self, id: u64) -> (freed: bool)
        ensures
            (final(self)@, freed) == ref_released(old(self)@, id),
            counts_positive(old(self)@) ==> counts_positive(final(self)@),
    {
        match self.counts.get(&id) {
            Some(c) => {
                let c = *c;
                if c <= 1 {
                    self.counts.remove(&id);
                    true
                } else {
                    self.counts.insert(id, c - 1);
                    false
                }
            },
            None => false,
        }
    }

    pub fn has_one_ref(&self, id: u64) -> (r: bool)
        ensures
            r == holds_one_ref(self@, id),
    {
        match self.counts.get(&id) {
            Some(c) => *c == 1,
            None => false,
        }
    }

    pub fn has_at_least_one_ref(&self, id: u64) -> (r: bool)
        ensures
            r == holds_any_ref(self@, id),
    {
        self.counts.contains_key(&id)
    }
}

/// Registering an object and releasing it once frees it: the release reports
/// the last reference and the identity is no longer live.
pub proof fn lemma_register_release_frees(m: Map<u64, u64>, id: u64)
    ensures
        ref_released(registered(m, id), id).1,
        !holds_any_ref(ref_released(registered(m, id), id).0, id),
{
}

/// After register and one more reference, the first release keeps the object
/// and the second frees it, leaving the identity dead.
pub proof fn lemma_add_ref_defers_free(m: Map<u64, u64>, id: u64)
    ensures
        ({
            let taken = ref_added(registered(m, id), id);
            let (once, first) = ref_released(taken, id);
            let (twice, second) = ref_released(once, id);
            !first && second && !holds_any_ref(twice, id)
        }),
{
}

/// On an identity that is not live, taking a reference changes nothing,
/// releasing frees nothing, and both queries answer false.
pub proof fn lemma_unknown_identity_is_inert(m: Map<u64, u64>, id: u64)
    requires
        !m.contains_key(id),
    ensures
        ref_added(m, id) == m,
        ref_released(m, id) == (m, false),
        !holds_one_ref(m, id),
        !holds_any_ref(m, id),
{
}

/// The table's lock runs two releases of an object holding two references one
/// after the other: exactly one of them reports the last reference, and the
/// identity is gone afterwards with every other entry untouched.
pub proof fn lemma_two_releases_free_once(m: Map<u64, u64>, id: u64)
    requires
        m.contains_key(id),
        m[id] == 2,
    ensures
        ({
            let (once, first) = ref_released(m, id);
            let (twice, second) = ref_released(once, id);
            &&& first != second
            &&& !first && second
            &&& twice == m.remove(id)
        }),
{
    let once = ref_released(m, id).0;
    assert(once.remove(id) =~= m.remove(id));
}

} // verus!
