use std::collections::HashMap;
use vstd::prelude::*;

use crate::phase::{phase_order, Phase};
use crate::text::owned;
use crate::types::{capability_flags, HarnessConfig, HarnessId, HarnessRun, PluginCapabilities};

verus! {

broadcast use vstd::std_specs::hash::group_hash_axioms;

/// The runs the web interface knows, by id.
#[derive(Debug)]
pub struct RunRegistry {
    runs: HashMap<HarnessId, HarnessRun>,
    ids: Vec<HarnessId>,
}

impl View for RunRegistry {
    type V = Map<HarnessId, HarnessRun>;

    closed spec fn view(&self) -> Map<HarnessId, HarnessRun> {
        self.runs@
    }
}

impl RunRegistry {
    /// The id list records each stored run once, and each run is stored
    /// under its own id.
    #[verifier::type_invariant]
    spec fn wf(&self) -> bool {
        &&& self.ids@.no_duplicates()
        &&& forall|k: HarnessId| #[trigger] self.runs@.contains_key(k) <==> self.ids@.contains(k)
        &&& forall|k: HarnessId| #[trigger] self.runs@.contains_key(k) ==> self.runs@[k].id == k
    }

    /// An empty registry.
    pub fn new() -> (r: Self)
        ensures
            r@ == Map::<HarnessId, HarnessRun>::empty(),
    {
        RunRegistry { runs: HashMap::new(), ids: Vec::new() }
    }

    /// Record a run under its id, replacing any run with that id.
    pub fn add_run(&mut self, run: HarnessRun)
        ensures
            final(self)@ == old(self)@.insert(run.id, run),
    {
        let mut taken = RunRegistry::new();
        std::mem::swap(self, &mut taken);
        proof {
            use_type_invariant(&taken);
        }
        let RunRegistry { mut runs, mut ids } = taken;
        let id = run.id;
        let known = runs.contains_key(&id);
        let ghost old_ids = ids@;
        let ghost old_runs = runs@;
        if !known {
            ids.push(id);
            proof {
                assert forall|i: int, j: int|
                    0 <= i < j < ids@.len() implies ids@[i] != ids@[j] by {
                    if j == ids@.len() - 1 {
                        assert(old_ids.contains(ids@[i]) ==> old_runs.contains_key(ids@[i]));
                        assert(old_ids[i] == ids@[i]);
                    }
                }
            }
        }
        runs.insert(id, run);
        proof {
            assert forall|k: HarnessId| #[trigger] runs@.contains_key(k) <==> ids@.contains(k) by {
                if k != id {
                    if old_ids.contains(k) {
                        let i = old_ids.index_of(k);
                        assert(ids@[i] == k);
                    }
                    if ids@.contains(k) {
                        let i = ids@.index_of(k);
                        if !known {
                            assert(i < old_ids.len());
                            assert(old_ids[i] == k);
                        }
                    }
                } else if !known {
                    assert(ids@[ids@.len() - 1] == id);
                } else {
                    assert(old_ids.contains(id));
                }
            }
        }
        *self = RunRegistry { runs, ids };
    }

    /// Replace the run with the same id (or record it when there is none).
    pub fn update_run(&mut self, run: HarnessRun)
        ensures
            final(self)@ == old(self)@.insert(run.id, run),
    {
        self.add_run(run);
    }

    /// The run with the given id, if any.
    pub fn get_run(&self, id: HarnessId) -> (r: Option<&HarnessRun>)
        ensures
            self@.contains_key(id) ==> r == Some(&self@[id]),
            !self@.contains_key(id) ==> r is None,
    {
        self.runs.get(&id)
    }

    /// The number of runs.
    pub fn len(&self) -> (r: usize)
        ensures
            r == self@.len(),
    {
        proof {
            use_type_invariant(self);
            assert(self.ids@.to_set() =~= self.runs@.dom());
            self.ids@.unique_seq_to_set();
        }
        self.ids.len()
    }

    /// All runs, each once, in the order their ids were first recorded.
    pub fn list_runs(&self) -> (r: Vec<&HarnessRun>)
        ensures
            r@.len() == self@.len(),
            forall|i: int|
                0 <= i < r@.len() ==> self@.contains_key((#[trigger] r@[i]).id) && self@[r@[i].id]
                    == *r@[i],
            forall|k: HarnessId| #[trigger]
                self@.contains_key(k) ==> exists|i: int| 0 <= i < r@.len() && *r@[i] == self@[k],
    {
        proof {
            use_type_invariant(self);
            assert(self.ids@.to_set() =~= self.runs@.dom());
            self.ids@.unique_seq_to_set();
        }
        let mut out: Vec<&HarnessRun> = Vec::new();
        let mut i: usize = 0;
        while i < self.ids.len()
            invariant
                i <= self.ids@.len(),
                out@.len() == i,
                forall|k: HarnessId| #[trigger] self.runs@.contains_key(k) <==> self.ids@.contains(k),
                forall|k: HarnessId| #[trigger] self.runs@.contains_key(k) ==> self.runs@[k].id == k,
                forall|j: int| 0 <= j < i ==> self.runs@.contains_key(self.ids@[j]) && *#[trigger] out@[j]
                    == self.runs@[self.ids@[j]],
            decreases self.ids@.len() - i,
        {
            let id = self.ids[i];
            assert(self.ids@.contains(id));
            match self.runs.get(&id) {
                Some(run) => out.push(run),
                None => {
                    assert(false);
                },
            }
            i = i + 1;
        }
        proof {
            assert forall|j: int| 0 <= j < out@.len() implies self@.contains_key(
                (#[trigger] out@[j]).id,
            ) && self@[out@[j].id] == *out@[j] by {
                assert(self.runs@.contains_key(self.ids@[j]));
            }
            assert forall|k: HarnessId| #[trigger] self@.contains_key(k) implies exists|j: int|
                0 <= j < out@.len() && *out@[j] == self@[k] by {
                assert(self.ids@.contains(k));
                let j = self.ids@.index_of(k);
                assert(*out@[j] == self.runs@[self.ids@[j]]);
            }
        }
        out
    }
}

/// A read gives back what a write wrote: after a run is added (or updated),
/// looking up its id finds exactly that run, and every other id finds what
/// it found before.
pub proof fn lemma_get_after_add(before: Map<HarnessId, HarnessRun>, run: HarnessRun, other: HarnessId)
    ensures
        before.insert(run.id, run).contains_key(run.id),
        before.insert(run.id, run)[run.id] == run,
        other != run.id ==> (before.insert(run.id, run).contains_key(other) == before.contains_key(
            other,
        )),
        other != run.id && before.contains_key(other) ==> before.insert(run.id, run)[other]
            == before[other],
{
}

/// Request to create a new run.
#[derive(Debug, Clone)]
pub struct CreateRunRequest {
    pub task: String,
    pub config: Option<HarnessConfig>,
}

/// Plugin information.
#[derive(Debug, Clone)]
pub struct PluginInfo {
    pub name: String,
    pub version: String,
    pub description: String,
    pub phases: Vec<Phase>,
    pub capabilities: PluginCapabilities,
}

/// What the web interface reports of each built-in plugin: name,
/// description, phases and capability flags; each has version `1.0.0`.
pub open spec fn builtin_plugin_table() -> Seq<
    (Seq<char>, Seq<char>, Seq<Phase>, (bool, bool, bool, bool, bool)),
> {
    seq![
        ("filesystem"@, "File system operations"@, phase_order(), (false, true, false, false, false)),
        ("shell"@, "Shell command execution"@, phase_order(), (false, false, true, false, false)),
        ("memory"@, "Persistent memory storage"@, phase_order(), (false, false, false, true, false)),
        (
            "web-search"@,
            "Web search capabilities"@,
            seq![Phase::Interrogate, Phase::Contract, Phase::Execute],
            (true, false, false, false, false),
        ),
        (
            "code-executor"@,
            "Code execution in multiple languages"@,
            seq![Phase::Execute, Phase::Finish],
            (false, false, false, false, true),
        ),
    ]
}

fn plugin_info(
    name: &str,
    description: &str,
    phases: Vec<Phase>,
    flags: (bool, bool, bool, bool, bool),
) -> (r: PluginInfo)
    ensures
        r.name@ == name@,
        r.version@ == "1.0.0"@,
        r.description@ == description@,
        r.phases@ == phases@,
        capability_flags(r.capabilities) == flags,
        r.capabilities.custom@ == Map::<String, bool>::empty(),
{
    let mut caps = PluginCapabilities::default();
    caps.web_search = flags.0;
    caps.filesystem = flags.1;
    caps.shell = flags.2;
    caps.memory = flags.3;
    caps.code_execution = flags.4;
    PluginInfo {
        name: owned(name),
        version: owned("1.0.0"),
        description: owned(description),
        phases,
        capabilities: caps,
    }
}

/// The built-in plugins as the web interface lists them, in order.
pub fn builtin_plugin_infos() -> (r: Vec<PluginInfo>)
    ensures
        r@.len() == builtin_plugin_table().len(),
        forall|i: int|
            0 <= i < r@.len() ==> {
                let t = builtin_plugin_table()[i];
                &&& (#[trigger] r@[i]).name@ == t.0
                &&& r@[i].version@ == "1.0.0"@
                &&& r@[i].description@ == t.1
                &&& r@[i].phases@ == t.2
                &&& capability_flags(r@[i].capabilities) == t.3
                &&& r@[i].capabilities.custom@ == Map::<String, bool>::empty()
            },
{
    let all = vec![Phase::Interrogate, Phase::Contract, Phase::Execute, Phase::Finish];
    assert(all@ =~= phase_order());
    let a = plugin_info("filesystem", "File system operations", all, (false, true, false, false, false));
    let all = vec![Phase::Interrogate, Phase::Contract, Phase::Execute, Phase::Finish];
    assert(all@ =~= phase_order());
    let b = plugin_info("shell", "Shell command execution", all, (false, false, true, false, false));
    let all = vec![Phase::Interrogate, Phase::Contract, Phase::Execute, Phase::Finish];
    assert(all@ =~= phase_order());
    let c = plugin_info(
        "memory",
        "Persistent memory storage",
        all,
        (false, false, false, true, false),
    );
    let three = vec![Phase::Interrogate, Phase::Contract, Phase::Execute];
    assert(three@ =~= seq![Phase::Interrogate, Phase::Contract, Phase::Execute]);
    let d = plugin_info(
        "web-search",
        "Web search capabilities",
        three,
        (true, false, false, false, false),
    );
    let two = vec![Phase::Execute, Phase::Finish];
    assert(two@ =~= seq![Phase::Execute, Phase::Finish]);
    let e = plugin_info(
        "code-executor",
        "Code execution in multiple languages",
        two,
        (false, false, false, false, true),
    );
    let r = vec![a, b, c, d, e];
    r
}

} // verus!
