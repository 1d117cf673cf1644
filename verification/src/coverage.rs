//! Coverage of mutation sites: which sites were reached during one execution.

use vstd::prelude::*;

verus! {

/// Records, for one execution, which mutation sites were reached.  A site is
/// recorded at most once, however often it reports itself; instrumented code
/// reports a site before it consults the runtime configuration, so coverage is
/// observed whether or not the site's mutation is active.
pub struct CoverageRecorder {
    hits: Vec<u32>,
}

impl CoverageRecorder {
    /// Whether the site was recorded as reached.
    pub closed spec fn spec_was_covered(self, mutator_id: u32) -> bool {
        self.hits@.contains(mutator_id)
    }

    /// A recorder with nothing reached yet.
    pub fn new() -> (r: Self)
        ensures
            forall|m: u32| !r.spec_was_covered(m),
    {
        CoverageRecorder { hits: Vec::new() }
    }

    /// Report that the site was reached: afterwards it is covered, and no
    /// other site's coverage changes.
    pub fn covered(&mut self, mutator_id: u32)
        ensures
            final(self).spec_was_covered(mutator_id),
            forall|m: u32|
                final(self).spec_was_covered(m) <==> (old(self).spec_was_covered(m) || m
                    == mutator_id),
    {
        if !self.contains_hit(mutator_id) {
            self.hits.push(mutator_id);
            proof {
                broadcast use vstd::seq_lib::lemma_seq_contains_after_push;

            }
        }
    }

    /// Whether the site was reached during this execution.
    pub fn was_covered(&self, mutator_id: u32) -> (r: bool)
        ensures
            r == self.spec_was_covered(mutator_id),
    {
        self.contains_hit(mutator_id)
    }

    /// Linear scan of the recorded sites.
    fn contains_hit(&self, mutator_id: u32) -> (r: bool)
        ensures
            r == self.hits@.contains(mutator_id),
    {
        let mut i: usize = 0;
        while i < self.hits.len()
            invariant
                i <= self.hits@.len(),
                forall|k: int| 0 <= k < i ==> self.hits@[k] != mutator_id,
            decreases self.hits@.len() - i,
        {
            if self.hits[i] == mutator_id {
                return true;
            }
            i = i + 1;
        }
        false
    }
}

} // verus!
