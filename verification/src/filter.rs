use vstd::hash_set::StringHashSet;
use vstd::prelude::*;

verus! {

/// Keeps the records of some targets away from one sink. A target is
/// excluded only where it equals a filter string; a prefix does not count.
pub struct SfoLogFilter {
    filters: StringHashSet,
}

impl View for SfoLogFilter {
    type V = Set<Seq<char>>;

    closed spec fn view(&self) -> Set<Seq<char>> {
        self.filters@
    }
}

impl SfoLogFilter {
    /// The filter that excludes exactly the targets in `filters`.
    pub fn new(filters: Vec<String>) -> (filter: Self)
        ensures
            filter@ == filters.deep_view().to_set(),
    {
        let mut set = StringHashSet::new();
        let mut i: usize = 0;
        while i < filters.len()
            invariant
                0 <= i <= filters@.len(),
                set@ == filters.deep_view().take(i as int).to_set(),
            decreases filters@.len() - i,
        {
            proof {
                let before = filters.deep_view().take(i as int);
                assert(filters.deep_view().take(i + 1) == before.push(filters@[i as int]@));
                before.lemma_push_to_set_commute(filters@[i as int]@);
            }
            set.insert(filters[i].clone());
            i = i + 1;
        }
        assert(filters.deep_view().take(i as int) == filters.deep_view());
        SfoLogFilter { filters: set }
    }

    /// Whether a record with this target is written to the sink: `false`
    /// means that the record is dropped and the sink's writer is not called.
    pub fn write(&self, target: &str) -> (forwarded: bool)
        ensures
            self@.contains(target@) ==> !forwarded,
            !self@.contains(target@) ==> forwarded,
    {
        !self.filters.contains(target)
    }
}

} // verus!
