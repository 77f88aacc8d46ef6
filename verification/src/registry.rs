//! The launch registry: the definitions that can be launched, rebuilt from
//! the stored definitions at startup and after every change.

use vstd::prelude::*;

use crate::agent::{launch_problem, launchable, validate, AgentDefModel, CustomAgentDef};
use crate::service::def_models;
use crate::text::str_equal;

verus! {

/// The launchable definitions, in the order they were registered.
pub struct LaunchRegistry {
    entries: Vec<CustomAgentDef>,
}

/// The definitions among `defs` that can be launched, in order.
pub open spec fn launchable_defs(defs: Seq<AgentDefModel>) -> Seq<AgentDefModel>
    decreases defs.len(),
{
    if defs.len() == 0 {
        Seq::empty()
    } else {
        let n = defs.len() - 1;
        let prev = launchable_defs(defs.take(n));
        if launchable(defs[n]) {
            prev.push(defs[n])
        } else {
            prev
        }
    }
}

/// For each definition among `defs` that cannot be launched, in order, its id
/// and what keeps it from launching.
pub open spec fn hydrate_errors(defs: Seq<AgentDefModel>) -> Seq<(Seq<char>, Seq<char>)>
    decreases defs.len(),
{
    if defs.len() == 0 {
        Seq::empty()
    } else {
        let n = defs.len() - 1;
        let prev = hydrate_errors(defs.take(n));
        if launchable(defs[n]) {
            prev
        } else {
            prev.push((defs[n].registry_id, launch_problem(defs[n])))
        }
    }
}

/// Whether some entry of `entries` has the id `id`.
pub open spec fn has_id(entries: Seq<AgentDefModel>, id: Seq<char>) -> bool {
    exists|i: int| 0 <= i < entries.len() && (#[trigger] entries[i]).registry_id == id
}

pub open spec fn error_models(errors: Seq<(String, String)>) -> Seq<(Seq<char>, Seq<char>)> {
    errors.map_values(|e: (String, String)| (e.0@, e.1@))
}

impl View for LaunchRegistry {
    type V = Seq<AgentDefModel>;

    closed spec fn view(&self) -> Seq<AgentDefModel> {
        def_models(self.entries@)
    }
}

impl LaunchRegistry {
    /// A registry with nothing in it.
    pub fn new() -> (r: LaunchRegistry)
        ensures
            r@ == Seq::<AgentDefModel>::empty(),
    {
        let r = LaunchRegistry { entries: Vec::new() };
        assert(r@ =~= Seq::<AgentDefModel>::empty());
        r
    }

    /// Whether an agent with id `id` can be launched.
    pub fn is_registered(&self, id: &str) -> (found: bool)
        ensures
            found == has_id(self@, id@),
    {
        match self.position(id) {
            Some(_) => true,
            None => false,
        }
    }

    /// The launch definition of the agent with id `id`, if it is registered
    /// (the first one registered under that id).
    pub fn get(&self, id: &str) -> (d: Option<&CustomAgentDef>)
        ensures
            d is Some == has_id(self@, id@),
            d matches Some(def) ==> exists|i: int|
                0 <= i < self@.len() && self@[i] == def@ && def@.registry_id == id@ && forall|j: int|
                    0 <= j < i ==> (#[trigger] self@[j]).registry_id != id@,
    {
        match self.position(id) {
            Some(i) => Some(&self.entries[i]),
            None => None,
        }
    }

    /// The index of the first entry with id `id`.
    fn position(&self, id: &str) -> (p: Option<usize>)
        ensures
            p is Some == has_id(self@, id@),
            p matches Some(i) ==> i < self@.len() && self.entries@[i as int]@.registry_id == id@
                && self@[i as int] == self.entries@[i as int]@ && forall|j: int|
                0 <= j < i ==> (#[trigger] self@[j]).registry_id != id@,
    {
        let n = self.entries.len();
        let mut i: usize = 0;
        while i < n
            invariant
                n == self.entries@.len(),
                i <= n,
                self@ == def_models(self.entries@),
                forall|j: int| 0 <= j < i ==> (#[trigger] self@[j]).registry_id != id@,
            decreases n - i,
        {
            if str_equal(self.entries[i].registry_id.as_str(), id) {
                assert(self@[i as int] == self.entries@[i as int]@);
                return Some(i);
            }
            i = i + 1;
        }
        None
    }
}

/// Rebuilds the launch registry from `defs`: every definition that can be
/// launched is registered, in order; for every other one the result lists its
/// id and what keeps it from launching.
pub fn hydrate(defs: Vec<CustomAgentDef>) -> (r: (LaunchRegistry, Vec<(String, String)>))
    ensures
        r.0@ == launchable_defs(def_models(defs@)),
        error_models(r.1@) == hydrate_errors(def_models(defs@)),
{
    let ghost all = def_models(defs@);
    assert(all.len() == defs.len());
    let mut entries: Vec<CustomAgentDef> = Vec::new();
    let mut errors: Vec<(String, String)> = Vec::new();
    let mut i: usize = 0;
    for def in it: defs.into_iter()
        invariant
            i == it.index(),
            def_models(it.seq()) == all,
            it.seq().len() == all.len(),
            i <= all.len(),
            all.len() <= usize::MAX,
            def_models(entries@) == launchable_defs(all.take(i as int)),
            error_models(errors@) == hydrate_errors(all.take(i as int)),
    {
        assert(all.take(i + 1).take(i as int) =~= all.take(i as int));
        assert(all[i as int] == def@);
        match validate(&def) {
            Ok(()) => {
                entries.push(def);
            },
            Err(e) => {
                let id = def.registry_id;
                errors.push((id, e));
            },
        }
        assert(def_models(entries@) =~= launchable_defs(all.take(i + 1)));
        assert(error_models(errors@) =~= hydrate_errors(all.take(i + 1)));
        i = i + 1;
    }
    assert(all.take(i as int) =~= all);
    (LaunchRegistry { entries }, errors)
}

} // verus!
