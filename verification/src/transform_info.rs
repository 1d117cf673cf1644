//! The mutation registry of one compilation unit.
//!
//! During the single-threaded transform pass the registry is passed by
//! exclusive reference and accumulates the mutation records, assigning each a
//! sequential, unique identifier.  Identifiers start at 1, because 0 means
//! "baseline" to the runtime configuration; the record of identifier `i`
//! stands at position `i - 1` of the finished, read-only sequence.

use vstd::prelude::*;

use crate::mutation::Mutation;
use crate::runtime_config::MutagenRuntimeConfig;

verus! {

/// The registry that all mutators of one transform pass share.
pub struct SharedTransformInfo {
    mutations: Vec<Mutation>,
}

impl SharedTransformInfo {
    /// The ordered, append-only sequence of registered records.
    pub closed spec fn spec_mutations(self) -> Seq<Mutation> {
        self.mutations@
    }

    /// True of an identifier that some registered site was assigned:
    /// assignment is sequential from 1, with no gaps.
    pub open spec fn spec_assigned(self, mutation_id: u32) -> bool {
        1 <= mutation_id <= self.spec_mutations().len()
    }

    /// An empty registry: nothing registered yet.
    pub fn new() -> (r: Self)
        ensures
            r.spec_mutations() == Seq::<Mutation>::empty(),
    {
        SharedTransformInfo { mutations: Vec::new() }
    }

    /// Register one mutation record and assign it the next identifier: the
    /// count of records after the append.  Each site gets its own identifier;
    /// no two sites share one.
    pub fn add_mutation(&mut self, mutation: Mutation) -> (id: u32)
        requires
            old(self).spec_mutations().len() + 1 <= u32::MAX,
        ensures
            final(self).spec_mutations() == old(self).spec_mutations().push(mutation),
            id == old(self).spec_mutations().len() + 1,
            final(self).spec_assigned(id),
    {
        self.mutations.push(mutation);
        self.mutations.len() as u32
    }

    /// How many mutations are registered, which is also the largest assigned
    /// identifier.
    pub fn mutation_count(&self) -> (n: usize)
        ensures
            n == self.spec_mutations().len(),
    {
        self.mutations.len()
    }

    /// The record that an identifier was assigned to, if any.
    pub fn get_mutation_record(&self, mutation_id: u32) -> (r: Option<&Mutation>)
        ensures
            match r {
                Some(m) => self.spec_assigned(mutation_id) && *m == self.spec_mutations()[
                    mutation_id - 1],
                None => !self.spec_assigned(mutation_id),
            },
    {
        if mutation_id >= 1 && ((mutation_id - 1) as usize) < self.mutations.len() {
            Some(&self.mutations[(mutation_id - 1) as usize])
        } else {
            None
        }
    }
}

/// Identifier assignment is injective: registering one record and then
/// another assigns the second a strictly larger identifier than the first, so
/// no two sites ever share one.
pub proof fn lemma_sequential_ids_unique(
    before: SharedTransformInfo,
    middle: SharedTransformInfo,
    after: SharedTransformInfo,
    first: Mutation,
    second: Mutation,
)
    requires
        middle.spec_mutations() == before.spec_mutations().push(first),
        after.spec_mutations() == middle.spec_mutations().push(second),
    ensures
        before.spec_mutations().len() + 1 < middle.spec_mutations().len() + 1,
{
}

/// No accidental activation: an identifier that no site of the registry was
/// assigned never activates any assigned site, whatever configuration holds
/// it as its active identifier.
pub proof fn lemma_no_accidental_activation(
    info: SharedTransformInfo,
    config: MutagenRuntimeConfig,
    site: u32,
)
    requires
        !info.spec_assigned(config.mutation_id),
        info.spec_assigned(site),
    ensures
        !config.spec_is_active(site),
{
}

/// The baseline never activates: a configuration with no active mutation
/// tests inactive at every assigned site, since assigned identifiers start
/// at 1.
pub proof fn lemma_baseline_never_active(
    info: SharedTransformInfo,
    config: MutagenRuntimeConfig,
    site: u32,
)
    requires
        config.mutation_id == 0,
        info.spec_assigned(site),
    ensures
        !config.spec_is_active(site),
{
}

} // verus!
