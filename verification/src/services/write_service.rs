//! The writing side of the services: commands, and the way a batch of
//! commands refers to entities that earlier commands of the batch created.
use std::collections::HashMap;

use vstd::prelude::*;

verus! {

broadcast use vstd::std_specs::hash::group_hash_axioms;

/// A command on an entity. Its target is the id that it names: for a create,
/// a placeholder that later commands of a batch may use for the new entity.
pub trait AbstractCommand: Sized {
    spec fn spec_target_id(&self) -> Option<u128>;

    spec fn spec_with_target_id(self, id: u128) -> Self;

    /// A command given a target names that target.
    proof fn lemma_with_target_id(self, id: u128)
        ensures
            self.spec_with_target_id(id).spec_target_id() == Some(id),
    ;

    fn target_id(&self) -> (id: Option<u128>)
        ensures
            id == self.spec_target_id(),
    ;

    fn with_target_id(self, id: u128) -> (c: Self)
        ensures
            c == self.spec_with_target_id(id),
            c.spec_target_id() == Some(id),
    ;
}

/// What a batch has learned: the id that each placeholder stands for.
pub struct IdMap {
    pub ids: HashMap<u128, u128>,
}

/// The command that a batch runs: its target replaced by the id that the
/// target stands for, where the batch has learned one.
pub open spec fn resolved<C: AbstractCommand>(ids: Map<u128, u128>, command: C) -> C {
    match command.spec_target_id() {
        Some(t) => if ids.contains_key(t) {
            command.spec_with_target_id(ids[t])
        } else {
            command
        },
        None => command,
    }
}

/// What the batch knows after a command: where the command had a target and
/// gave back an entity, the target stands for the id of that entity.
pub open spec fn learned(ids: Map<u128, u128>, target: Option<u128>, result: Option<u128>) -> Map<u128, u128> {
    match (target, result) {
        (Some(t), Some(r)) => ids.insert(t, r),
        _ => ids,
    }
}

impl IdMap {
    /// A batch that has learned nothing yet.
    pub fn new() -> (m: IdMap)
        ensures
            m.ids@ == Map::<u128, u128>::empty(),
    {
        IdMap { ids: HashMap::new() }
    }

    /// The command to run for the next command of the batch.
    pub fn resolve<C: AbstractCommand>(&self, command: C) -> (c: C)
        ensures
            c == resolved(self.ids@, command),
    {
        let target = command.target_id();
        match target {
            Some(t) => match self.ids.get(&t) {
                Some(id) => command.with_target_id(*id),
                None => command,
            },
            None => command,
        }
    }

    /// Records what a command (with the target it named before resolution)
    /// gave back: the id of the entity, if any.
    pub fn learn(&mut self, target: Option<u128>, result: Option<u128>)
        ensures
            final(self).ids@ == learned(old(self).ids@, target, result),
    {
        if let (Some(t), Some(r)) = (target, result) {
            self.ids.insert(t, r);
        }
    }
}

/// A command that names a placeholder after the command with that target
/// created an entity runs on that entity.
pub proof fn lemma_placeholder_resolves<C: AbstractCommand>(ids: Map<u128, u128>, placeholder: u128, created: u128, command: C)
    requires
        command.spec_target_id() == Some(placeholder),
    ensures
        resolved(learned(ids, Some(placeholder), Some(created)), command) == command.spec_with_target_id(created),
        resolved(learned(ids, Some(placeholder), Some(created)), command).spec_target_id() == Some(created),
{
    assert(learned(ids, Some(placeholder), Some(created))[placeholder] == created);
    command.lemma_with_target_id(created);
}

/// A command whose target the batch has not learned runs unchanged.
pub proof fn lemma_unknown_target_unchanged<C: AbstractCommand>(ids: Map<u128, u128>, command: C)
    requires
        command.spec_target_id() matches Some(t) ==> !ids.contains_key(t),
    ensures
        resolved(ids, command) == command,
{
}

} // verus!
