//! One configuration layer: per-kind dependency maps, PyPI dependencies,
//! an optional activation block, a task map and system requirements.

use vstd::prelude::*;
use indexmap::IndexMap;
use crate::SpecType;
use crate::deps::{
    DepEntry, dep_entries, dep_map_new, dep_map_insert, upsert, unique_keys, has_key,
    lemma_upsert, lemma_find_key, lemma_find_key_first,
};
use crate::names::{normalize_package_name, valid_package_name, ascii_lower};
use crate::system_requirements::{SystemRequirements, SystemRequirementsView};
use crate::task::{Task, TaskView};

verus! {

/// An activation block: the script paths to run, project-root-relative,
/// in execution order.
pub struct Activation {
    pub scripts: Vec<String>,
}

/// One configuration layer.  An absent dependency or task section is the
/// empty map; the activation block is kept optional because an absent
/// block and an empty one differ under override semantics.
pub struct Target {
    run: IndexMap<String, String>,
    host: IndexMap<String, String>,
    build: IndexMap<String, String>,
    pypi: IndexMap<String, String>,
    activation: Option<Activation>,
    tasks: Vec<(String, Task)>,
    system_requirements: SystemRequirements,
}

/// The mathematical content of a target.
#[verifier::ext_equal]
pub ghost struct TargetView {
    pub run: Seq<DepEntry>,
    pub host: Seq<DepEntry>,
    pub build: Seq<DepEntry>,
    pub pypi: Seq<DepEntry>,
    pub activation: Option<Seq<Seq<char>>>,
    pub tasks: Seq<(Seq<char>, TaskView)>,
    pub system_requirements: SystemRequirementsView,
}

/// The name-to-task entries a task list holds.
pub open spec fn task_entries(ts: Seq<(String, Task)>) -> Seq<(Seq<char>, TaskView)> {
    ts.map(|i: int, p: (String, Task)| (p.0@, p.1@))
}

impl View for Target {
    type V = TargetView;

    closed spec fn view(&self) -> TargetView {
        TargetView {
            run: dep_entries(self.run),
            host: dep_entries(self.host),
            build: dep_entries(self.build),
            pypi: dep_entries(self.pypi),
            activation: match self.activation {
                Some(a) => Some(a.scripts.deep_view()),
                None => None,
            },
            tasks: task_entries(self.tasks@),
            system_requirements: self.system_requirements@,
        }
    }
}

impl TargetView {
    /// The dependency entries of one kind.
    pub open spec fn deps(self, kind: SpecType) -> Seq<DepEntry> {
        match kind {
            SpecType::Run => self.run,
            SpecType::Host => self.host,
            SpecType::Build => self.build,
        }
    }

    /// Well-formedness: every map in the layer has unique keys.
    pub open spec fn wf(self) -> bool {
        &&& unique_keys(self.run)
        &&& unique_keys(self.host)
        &&& unique_keys(self.build)
        &&& unique_keys(self.pypi)
        &&& unique_keys(self.tasks)
    }

    /// The layer with nothing declared.
    pub open spec fn empty() -> TargetView {
        TargetView {
            run: Seq::<DepEntry>::empty(),
            host: Seq::<DepEntry>::empty(),
            build: Seq::<DepEntry>::empty(),
            pypi: Seq::<DepEntry>::empty(),
            activation: None,
            tasks: Seq::<(Seq<char>, TaskView)>::empty(),
            system_requirements: SystemRequirementsView {
                linux: None,
                libc: None,
                macos: None,
                cuda: None,
                archspec: None,
            },
        }
    }
}

/// The position of a task name in a task list, if the name is present.
pub fn task_position(ts: &Vec<(String, Task)>, name: &String) -> (r: Option<usize>)
    ensures
        r matches Some(i) ==> i < ts@.len() && task_entries(ts@)[i as int].0 == name@,
        r matches Some(i) ==> find_key_of_tasks(ts@, name@) == i as int,
        r is None ==> !has_key(task_entries(ts@), name@),
{
    let n = ts.len();
    let mut i: usize = 0;
    while i < n
        invariant
            n == ts@.len(),
            i <= n,
            forall|j: int| 0 <= j < i ==> task_entries(ts@)[j].0 != name@,
        decreases n - i,
    {
        if ts[i].0.eq(name) {
            proof {
                assert(task_entries(ts@)[i as int].0 == name@);
                lemma_find_key_first(task_entries(ts@), name@, i as int);
            }
            return Some(i);
        }
        i = i + 1;
    }
    proof {
        if has_key(task_entries(ts@), name@) {
            let w = choose|k: int|
                0 <= k < task_entries(ts@).len() && task_entries(ts@)[k].0 == name@;
        }
    }
    None
}

/// The position `find_key` names in a task list's entries.
pub open spec fn find_key_of_tasks(ts: Seq<(String, Task)>, name: Seq<char>) -> int {
    crate::deps::find_key(task_entries(ts), name)
}

impl Target {
    /// A layer with nothing declared.
    pub fn new() -> (t: Target)
        ensures
            t@ == TargetView::empty(),
            t@.wf(),
    {
        let t = Target {
            run: dep_map_new(),
            host: dep_map_new(),
            build: dep_map_new(),
            pypi: dep_map_new(),
            activation: None,
            tasks: Vec::new(),
            system_requirements: SystemRequirements::none(),
        };
        proof {
            assert(task_entries(t.tasks@) =~= Seq::<(Seq<char>, TaskView)>::empty());
            assert(t@ =~= TargetView::empty());
        }
        t
    }

    /// Insert one dependency of the given kind: an existing package name
    /// keeps its position and takes the new constraint, a new name is
    /// appended last.
    pub fn add_dependency(&mut self, kind: SpecType, name: String, constraint: String)
        ensures
            final(self)@ == (match kind {
                SpecType::Run => TargetView {
                    run: upsert(old(self)@.run, name@, constraint@),
                    ..old(self)@
                },
                SpecType::Host => TargetView {
                    host: upsert(old(self)@.host, name@, constraint@),
                    ..old(self)@
                },
                SpecType::Build => TargetView {
                    build: upsert(old(self)@.build, name@, constraint@),
                    ..old(self)@
                },
            }),
            old(self)@.wf() ==> final(self)@.wf(),
    {
        proof {
            if old(self)@.wf() {
                lemma_upsert(old(self)@.deps(kind), name@, constraint@);
            }
        }
        match kind {
            SpecType::Run => {
                let _ = dep_map_insert(&mut self.run, name, constraint);
            },
            SpecType::Host => {
                let _ = dep_map_insert(&mut self.host, name, constraint);
            },
            SpecType::Build => {
                let _ = dep_map_insert(&mut self.build, name, constraint);
            },
        }
    }

    /// Insert one dependency under its normalized (ASCII-lowercased) name;
    /// a name with characters outside letters, digits, `-`, `_` and `.` is
    /// rejected and the layer left unchanged.
    pub fn add_normalized_dependency(&mut self, kind: SpecType, name: &str, constraint: String) -> (ok: bool)
        ensures
            ok == valid_package_name(name@),
            ok ==> final(self)@ == (match kind {
                SpecType::Run => TargetView {
                    run: upsert(old(self)@.run, ascii_lower(name@), constraint@),
                    ..old(self)@
                },
                SpecType::Host => TargetView {
                    host: upsert(old(self)@.host, ascii_lower(name@), constraint@),
                    ..old(self)@
                },
                SpecType::Build => TargetView {
                    build: upsert(old(self)@.build, ascii_lower(name@), constraint@),
                    ..old(self)@
                },
            }),
            !ok ==> *final(self) == *old(self),
            old(self)@.wf() ==> final(self)@.wf(),
    {
        match normalize_package_name(name) {
            Some(normalized) => {
                self.add_dependency(kind, normalized, constraint);
                true
            },
            None => false,
        }
    }

    /// Insert one PyPI dependency, with the same position-preserving rule.
    pub fn add_pypi_dependency(&mut self, name: String, requirement: String)
        ensures
            final(self)@ == (TargetView {
                pypi: upsert(old(self)@.pypi, name@, requirement@),
                ..old(self)@
            }),
            old(self)@.wf() ==> final(self)@.wf(),
    {
        proof {
            if old(self)@.wf() {
                lemma_upsert(old(self)@.pypi, name@, requirement@);
            }
        }
        let _ = dep_map_insert(&mut self.pypi, name, requirement);
    }

    /// Declare the activation block of this layer, replacing any earlier one.
    pub fn set_activation(&mut self, scripts: Vec<String>)
        ensures
            final(self)@ == (TargetView { activation: Some(scripts.deep_view()), ..old(self)@ }),
            old(self)@.wf() ==> final(self)@.wf(),
    {
        self.activation = Some(Activation { scripts });
    }

    /// Declare the system requirements of this layer.
    pub fn set_system_requirements(&mut self, requirements: SystemRequirements)
        ensures
            final(self)@ == (TargetView {
                system_requirements: requirements@,
                ..old(self)@
            }),
            old(self)@.wf() ==> final(self)@.wf(),
    {
        self.system_requirements = requirements;
    }

    /// Insert one task under its name: an existing name keeps its position
    /// and its definition is fully replaced, a new name is appended last.
    pub fn add_task(&mut self, name: String, task: Task)
        ensures
            final(self)@ == (TargetView {
                tasks: upsert(old(self)@.tasks, name@, task@),
                ..old(self)@
            }),
            old(self)@.wf() ==> final(self)@.wf(),
    {
        proof {
            if old(self)@.wf() {
                lemma_upsert(old(self)@.tasks, name@, task@);
            }
            lemma_find_key(old(self)@.tasks, name@);
        }
        let ghost pre = self.tasks@;
        match task_position(&self.tasks, &name) {
            Some(i) => {
                self.tasks.remove(i);
                self.tasks.insert(i, (name, task));
                proof {
                    assert(task_entries(self.tasks@) =~= upsert(task_entries(pre), name@, task@));
                }
            },
            None => {
                self.tasks.push((name, task));
                proof {
                    assert(task_entries(self.tasks@) =~= upsert(task_entries(pre), name@, task@));
                }
            },
        }
        proof {
            assert(self@ =~= (TargetView { tasks: upsert(old(self)@.tasks, name@, task@), ..old(self)@ }));
        }
    }

    /// The dependency map of one kind.
    pub fn dependencies(&self, kind: SpecType) -> (r: &IndexMap<String, String>)
        ensures
            dep_entries(*r) == self@.deps(kind),
    {
        match kind {
            SpecType::Run => &self.run,
            SpecType::Host => &self.host,
            SpecType::Build => &self.build,
        }
    }

    /// The PyPI dependency map.
    pub fn pypi_dependencies(&self) -> (r: &IndexMap<String, String>)
        ensures
            dep_entries(*r) == self@.pypi,
    {
        &self.pypi
    }

    /// The activation block, if one is declared.
    pub fn activation(&self) -> (r: Option<&Activation>)
        ensures
            r is Some <==> self@.activation is Some,
            r matches Some(a) ==> self@.activation == Some(a.scripts.deep_view()),
    {
        match &self.activation {
            Some(a) => Some(a),
            None => None,
        }
    }

    /// The task list, in declaration order.
    pub fn tasks(&self) -> (r: &Vec<(String, Task)>)
        ensures
            task_entries(r@) == self@.tasks,
    {
        &self.tasks
    }

    /// The declared system requirements.
    pub fn system_requirements(&self) -> (r: &SystemRequirements)
        ensures
            r@ == self@.system_requirements,
    {
        &self.system_requirements
    }
}

} // verus!
