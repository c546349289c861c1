//! The project facade: a root directory and a manifest, with the resolved
//! views a caller asks for — dependencies, tasks, activation scripts and
//! virtual packages — delegated to the default feature.

use vstd::prelude::*;
use indexmap::IndexMap;
use vstd::string::StringExecFns;
use crate::SpecType;
use crate::consts::{
    environment_dir_name, pixi_dir_name, project_lock_file, project_manifest_file,
};
use crate::deps::{
    DepEntry, dep_entries, merge_entries, merge_into, has_key, value_of, unique_keys,
    lemma_find_key_first, lemma_merge_keys,
};
use crate::feature::{
    FeatureView, lemma_feature_dependencies_unique, spec_activation_block,
    spec_feature_dependencies, spec_feature_pypi, spec_feature_tasks, spec_has_pypi,
    task_ref_entries,
};
use crate::manifest::{Manifest, ManifestView, ProjectMetadata};
use crate::platform::{Platform, current_platform};
use crate::system_requirements::{
    SystemRequirements, VirtualPackage, VirtualPackageView,
    non_relevant_virtual_packages_for_platform, spec_relevant_packages, spec_virtual_packages,
};
use crate::task::{Task, TaskView, names_contain};

verus! {

/// A path under a base directory, joined with a single separator.
pub open spec fn joined_path(base: Seq<char>, name: Seq<char>) -> Seq<char> {
    base + "/"@ + name
}

/// Join a file name onto a base directory path.
pub fn join_path(base: &str, name: &str) -> (r: String)
    ensures
        r@ == joined_path(base@, name@),
{
    let mut s = base.to_owned();
    s.append("/");
    s.append(name);
    s
}

/// The names of a resolved task list, in order.
pub open spec fn name_seq(s: Seq<&String>) -> Seq<Seq<char>> {
    Seq::new(s.len(), |k: int| s[k]@)
}

/// The names of the tasks in `es` other than `name` itself whose
/// dependency list contains `name`, in order.
pub open spec fn spec_depending(es: Seq<(Seq<char>, TaskView)>, name: Seq<char>) -> Seq<Seq<char>>
    decreases es.len(),
{
    if es.len() == 0 {
        Seq::<Seq<char>>::empty()
    } else {
        spec_depending(es.drop_last(), name) + (if es.last().0 != name
            && es.last().1.depends_on.contains(name) {
            seq![es.last().0]
        } else {
            Seq::<Seq<char>>::empty()
        })
    }
}

/// The reverse-dependency query: empty when `name` is not a task of the
/// resolved map, else every other task name that depends on it.
pub open spec fn spec_task_names_depending_on(
    es: Seq<(Seq<char>, TaskView)>,
    name: Seq<char>,
) -> Seq<Seq<char>> {
    if has_key(es, name) {
        spec_depending(es, name)
    } else {
        Seq::<Seq<char>>::empty()
    }
}

/// The joined candidate paths of a script list under a root.
pub open spec fn spec_joined_all(root: Seq<char>, scripts: Seq<Seq<char>>) -> Seq<Seq<char>> {
    Seq::new(scripts.len(), |k: int| joined_path(root, scripts[k]))
}

/// The scripts the chosen activation block declares, or none at all.
pub open spec fn spec_activation_scripts(f: FeatureView, platform: Option<Platform>) -> Seq<
    Seq<char>,
> {
    match spec_activation_block(f, platform) {
        Some(s) => s,
        None => Seq::<Seq<char>>::empty(),
    }
}

/// The paths at positions whose flag equals `want`, in order.
pub open spec fn spec_partition(paths: Seq<Seq<char>>, flags: Seq<bool>, want: bool) -> Seq<
    Seq<char>,
>
    decreases paths.len(),
{
    if paths.len() == 0 {
        Seq::<Seq<char>>::empty()
    } else {
        spec_partition(paths.drop_last(), flags.drop_last(), want) + (if flags.last() == want {
            seq![paths.last()]
        } else {
            Seq::<Seq<char>>::empty()
        })
    }
}

/// A project: its root directory and its manifest.
pub struct Project {
    root: String,
    manifest: Manifest,
}

/// The mathematical content of a project.
#[verifier::ext_equal]
pub ghost struct ProjectView {
    pub root: Seq<char>,
    pub manifest: ManifestView,
}

impl View for Project {
    type V = ProjectView;

    closed spec fn view(&self) -> ProjectView {
        ProjectView { root: self.root@, manifest: self.manifest@ }
    }
}

impl Project {
    /// Wrap an in-memory manifest, with an empty root directory.
    pub fn from_manifest(manifest: Manifest) -> (p: Project)
        ensures
            p@ == (ProjectView { root: Seq::<char>::empty(), manifest: manifest@ }),
    {
        Project { root: String::new(), manifest }
    }

    /// Wrap a manifest loaded from disk, recording the directory that
    /// holds it.
    pub fn from_manifest_at(root: String, manifest: Manifest) -> (p: Project)
        ensures
            p@ == (ProjectView { root: root@, manifest: manifest@ }),
    {
        Project { root, manifest }
    }

    /// The name of the project.
    pub fn name(&self) -> (r: &String)
        ensures
            r@ == self@.manifest.project.name,
    {
        &self.manifest.project().name
    }

    /// The version of the project, if declared.
    pub fn version(&self) -> (r: &Option<String>)
        ensures
            r.deep_view() == self@.manifest.project.version,
    {
        &self.manifest.project().version
    }

    /// The description of the project, if declared.
    pub fn description(&self) -> (r: &Option<String>)
        ensures
            r.deep_view() == self@.manifest.project.description,
    {
        &self.manifest.project().description
    }

    /// The channels the project draws packages from.
    pub fn channels(&self) -> (r: &Vec<String>)
        ensures
            r.deep_view() == self@.manifest.project.channels,
    {
        &self.manifest.project().channels
    }

    /// The platforms the project claims to support.
    pub fn platforms(&self) -> (r: &Vec<Platform>)
        ensures
            r@ == self@.manifest.project.platforms,
    {
        &self.manifest.project().platforms
    }

    /// The manifest.
    pub fn manifest(&self) -> (r: &Manifest)
        ensures
            r@ == self@.manifest,
    {
        &self.manifest
    }

    /// The root directory of the project.
    pub fn root(&self) -> (r: &String)
        ensures
            r@ == self@.root,
    {
        &self.root
    }

    /// The directory for tool-managed state under the root.
    pub fn pixi_dir(&self) -> (r: String)
        ensures
            r@ == joined_path(self@.root, ".pixi"@),
    {
        join_path(self.root.as_str(), pixi_dir_name())
    }

    /// The directory for environment data under the tool directory.
    pub fn environment_dir(&self) -> (r: String)
        ensures
            r@ == joined_path(joined_path(self@.root, ".pixi"@), "env"@),
    {
        let d = self.pixi_dir();
        join_path(d.as_str(), environment_dir_name())
    }

    /// The path of the manifest file under the root.
    pub fn manifest_path(&self) -> (r: String)
        ensures
            r@ == joined_path(self@.root, "pixi.toml"@),
    {
        join_path(self.root.as_str(), project_manifest_file())
    }

    /// The path of the lock file under the root.
    pub fn lock_file_path(&self) -> (r: String)
        ensures
            r@ == joined_path(self@.root, "pixi.lock"@),
    {
        join_path(self.root.as_str(), project_lock_file())
    }

    /// The effective task map for a request, by override semantics.
    pub fn tasks(&self, platform: Option<Platform>) -> (r: Vec<(&String, &Task)>)
        ensures
            task_ref_entries(r@) == spec_feature_tasks(self@.manifest.default_feature, platform),
    {
        self.manifest.tasks(platform)
    }

    /// The task with the given name in the effective task map, if any.
    pub fn task_opt(&self, name: &String, platform: Option<Platform>) -> (r: Option<&Task>)
        ensures
            ({
                let es = spec_feature_tasks(self@.manifest.default_feature, platform);
                &&& (r is Some <==> has_key(es, name@))
                &&& (r matches Some(t) ==> t@ == value_of(es, name@))
            }),
    {
        let ts = self.manifest.tasks(platform);
        let ghost es = task_ref_entries(ts@);
        let n = ts.len();
        let mut i: usize = 0;
        while i < n
            invariant
                n == ts@.len(),
                i <= n,
                es == task_ref_entries(ts@),
                es == spec_feature_tasks(self@.manifest.default_feature, platform),
                forall|j: int| 0 <= j < i ==> es[j].0 != name@,
            decreases n - i,
        {
            let pair = &ts[i];
            if pair.0.eq(name) {
                proof {
                    assert(es[i as int].0 == name@);
                    lemma_find_key_first(es, name@, i as int);
                    assert(has_key(es, name@));
                    assert(value_of(es, name@) == es[i as int].1);
                    assert(pair.1@ == es[i as int].1);
                }
                return Some(pair.1);
            }
            i = i + 1;
        }
        proof {
            if has_key(es, name@) {
                let w = choose|k: int| 0 <= k < es.len() && es[k].0 == name@;
            }
        }
        None
    }

    /// The names of all tasks in the effective task map, in order.
    pub fn task_names(&self, platform: Option<Platform>) -> (r: Vec<&String>)
        ensures
            ({
                let es = spec_feature_tasks(self@.manifest.default_feature, platform);
                &&& name_seq(r@).len() == es.len()
                &&& forall|k: int| 0 <= k < es.len() ==> name_seq(r@)[k] == es[k].0
            }),
    {
        let ts = self.manifest.tasks(platform);
        let ghost es = task_ref_entries(ts@);
        let n = ts.len();
        let mut r: Vec<&String> = Vec::new();
        let mut i: usize = 0;
        while i < n
            invariant
                n == ts@.len(),
                i <= n,
                es == task_ref_entries(ts@),
                r@.len() == i,
                forall|k: int| 0 <= k < i ==> name_seq(r@)[k] == es[k].0,
            decreases n - i,
        {
            let pair = &ts[i];
            proof {
                assert(name_seq(r@).len() == i);
            }
            let ghost pre = r@;
            r.push(pair.0);
            proof {
                assert forall|k: int| 0 <= k < i + 1 implies name_seq(r@)[k] == es[k].0 by {
                    assert(name_seq(r@)[k] == r@[k]@);
                    if k < i {
                        assert(r@[k] == pre[k]);
                        assert(name_seq(pre)[k] == pre[k]@);
                    } else {
                        assert(r@[k]@ == ts@[k].0@);
                        assert(es[k] == (ts@[k].0@, ts@[k].1@));
                    }
                }
            }
            i = i + 1;
        }
        r
    }

    /// The names of the tasks that depend on the given task in the
    /// effective task map for a request; empty when the task itself is
    /// absent from that map.
    pub fn task_names_depending_on_for(&self, name: &String, platform: Option<Platform>) -> (r:
        Vec<&String>)
        ensures
            name_seq(r@) == spec_task_names_depending_on(
                spec_feature_tasks(self@.manifest.default_feature, platform),
                name@,
            ),
    {
        let ghost es = spec_feature_tasks(self@.manifest.default_feature, platform);
        let present = match self.task_opt(name, platform) {
            Some(_) => true,
            None => false,
        };
        if !present {
            let r: Vec<&String> = Vec::new();
            proof {
                assert(name_seq(r@) =~= spec_task_names_depending_on(es, name@));
            }
            return r;
        }
        let ts = self.manifest.tasks(platform);
        let n = ts.len();
        let mut r: Vec<&String> = Vec::new();
        proof {
            assert(name_seq(r@) =~= spec_depending(es.take(0), name@));
        }
        let mut i: usize = 0;
        while i < n
            invariant
                n == ts@.len(),
                i <= n,
                es == task_ref_entries(ts@),
                name_seq(r@) == spec_depending(es.take(i as int), name@),
            decreases n - i,
        {
            let pair = &ts[i];
            let ghost prev = spec_depending(es.take(i as int), name@);
            proof {
                assert(name_seq(r@).len() == r@.len());
                assert(es.take(i as int + 1).drop_last() =~= es.take(i as int));
                assert(es.take(i as int + 1).last() == es[i as int]);
                assert(spec_depending(es.take(i as int + 1), name@) == prev + (if es[i as int].0
                    != name@ && es[i as int].1.depends_on.contains(name@) {
                    seq![es[i as int].0]
                } else {
                    Seq::<Seq<char>>::empty()
                }));
            }
            let hit = !pair.0.eq(name) && names_contain(pair.1.depends_on(), name);
            if hit {
                r.push(pair.0);
                proof {
                    assert(name_seq(r@) =~= prev + seq![es[i as int].0]);
                }
            } else {
                proof {
                    assert(prev + Seq::<Seq<char>>::empty() =~= prev);
                }
            }
            i = i + 1;
        }
        proof {
            assert(es.take(n as int) =~= es);
        }
        r
    }

    /// The reverse-dependency query against the current host platform, as
    /// the task runner resolves it.  The host platform is read from the
    /// machine, so the contract fixes the result only up to that choice.
    pub fn task_names_depending_on(&self, name: &String) -> (r: Vec<&String>)
        ensures
            exists|p: Option<Platform>|
                name_seq(r@) == spec_task_names_depending_on(
                    spec_feature_tasks(self@.manifest.default_feature, p),
                    name@,
                ),
            !name_seq(r@).contains(name@),
    {
        let p = current_platform();
        let r = self.task_names_depending_on_for(name, p);
        proof {
            let es = spec_feature_tasks(self@.manifest.default_feature, p);
            lemma_depending_excludes(es, name@);
            if name_seq(r@).contains(name@) {
                let w = choose|k: int|
                    0 <= k < name_seq(r@).len() && name_seq(r@)[k] == name@;
            }
        }
        r
    }

    /// The merged dependency map of one kind for a platform.
    pub fn dependencies(&self, platform: Platform, kind: SpecType) -> (m: IndexMap<String, String>)
        ensures
            dep_entries(m) == spec_feature_dependencies(
                self@.manifest.default_feature,
                Some(platform),
                kind,
            ),
            self@.manifest.wf() ==> unique_keys(dep_entries(m)),
    {
        self.manifest.default_feature().dependencies(Some(platform), kind)
    }

    /// All dependencies for a platform: the run, host and build maps
    /// merged in that order, so a name under several kinds keeps one
    /// entry and the later kind's constraint wins.
    pub fn all_dependencies(&self, platform: Platform) -> (m: IndexMap<String, String>)
        ensures
            dep_entries(m) == spec_all_dependencies(self@.manifest.default_feature, platform),
            self@.manifest.wf() ==> unique_keys(dep_entries(m)),
    {
        proof {
            if self@.manifest.wf() {
                let f = self@.manifest.default_feature;
                let run_r = spec_feature_dependencies(f, Some(platform), SpecType::Run);
                let host_r = spec_feature_dependencies(f, Some(platform), SpecType::Host);
                let build_r = spec_feature_dependencies(f, Some(platform), SpecType::Build);
                lemma_feature_dependencies_unique(f, Some(platform), SpecType::Run);
                lemma_merge_keys(run_r, host_r);
                lemma_merge_keys(merge_entries(run_r, host_r), build_r);
            }
        }
        let mut acc = self.dependencies(platform, SpecType::Run);
        let host = self.dependencies(platform, SpecType::Host);
        let build = self.dependencies(platform, SpecType::Build);
        merge_into(&mut acc, &host);
        merge_into(&mut acc, &build);
        acc
    }

    /// The merged PyPI dependency map for a platform.
    pub fn pypi_dependencies(&self, platform: Platform) -> (m: IndexMap<String, String>)
        ensures
            dep_entries(m) == spec_feature_pypi(self@.manifest.default_feature, Some(platform)),
            self@.manifest.wf() ==> unique_keys(dep_entries(m)),
    {
        self.manifest.default_feature().pypi_dependencies(Some(platform))
    }

    /// Whether any layer declares a PyPI dependency.
    pub fn has_pypi_dependencies(&self) -> (r: bool)
        ensures
            r == spec_has_pypi(self@.manifest.default_feature),
    {
        self.manifest.has_pypi_dependencies()
    }

    /// The candidate activation script paths for a platform: the scripts
    /// of the single most specific declared activation block, each joined
    /// under the project root, before any existence check.
    pub fn activation_script_candidates(&self, platform: Platform) -> (r: Vec<String>)
        ensures
            r.deep_view() == spec_joined_all(
                self@.root,
                spec_activation_scripts(self@.manifest.default_feature, Some(platform)),
            ),
    {
        let ghost scripts = spec_activation_scripts(self@.manifest.default_feature, Some(platform));
        let mut r: Vec<String> = Vec::new();
        match self.manifest.default_feature().activation(Some(platform)) {
            Some(a) => {
                let n = a.scripts.len();
                let mut i: usize = 0;
                while i < n
                    invariant
                        n == a.scripts@.len(),
                        i <= n,
                        scripts == a.scripts.deep_view(),
                        self@.root == self.root@,
                        r@.len() == i,
                        forall|k: int| 0 <= k < i ==> #[trigger] r@[k]@ == joined_path(
                            self.root@,
                            scripts[k],
                        ),
                    decreases n - i,
                {
                    let p = join_path(self.root.as_str(), a.scripts[i].as_str());
                    let ghost pre = r@;
                    r.push(p);
                    proof {
                        assert forall|k: int|
                            0 <= k < i + 1 implies #[trigger] r@[k]@ == joined_path(
                            self.root@,
                            scripts[k],
                        ) by {
                            if k < i {
                                assert(r@[k] == pre[k]);
                                assert(pre[k]@ == joined_path(self.root@, scripts[k]));
                            } else {
                                assert(scripts[k] == a.scripts@[k]@);
                            }
                        }
                    }
                    i = i + 1;
                }
                proof {
                    assert forall|k: int|
                        0 <= k < r@.len() implies r.deep_view()[k] == joined_path(
                        self@.root,
                        scripts[k],
                    ) by {
                        assert(r.deep_view()[k] == r@[k]@);
                    }
                    assert(r.deep_view() =~= spec_joined_all(self@.root, scripts));
                }
            },
            None => {
                proof {
                    assert(r.deep_view() =~= spec_joined_all(self@.root, scripts));
                }
            },
        }
        r
    }

    /// The declared system requirements: read from the default layer only,
    /// never from platform overrides.
    pub fn system_requirements(&self) -> (r: &SystemRequirements)
        ensures
            r@ == self@.manifest.default_feature.default_target.system_requirements,
    {
        self.manifest.default_feature().default_target().system_requirements()
    }

    /// The declared virtual packages that are relevant on the platform, in
    /// declared order.
    pub fn virtual_packages_for_platform(&self, platform: Platform) -> (r: Vec<VirtualPackage>)
        ensures
            r.deep_view() == spec_relevant_packages(
                spec_virtual_packages(
                    self@.manifest.default_feature.default_target.system_requirements,
                ),
                platform,
            ),
    {
        let declared = self.system_requirements().virtual_packages();
        let ghost vs = declared.deep_view();
        let n = declared.len();
        let mut r: Vec<VirtualPackage> = Vec::new();
        proof {
            assert(r.deep_view() =~= spec_relevant_packages(vs.take(0), platform));
        }
        let mut i: usize = 0;
        while i < n
            invariant
                n == declared@.len(),
                i <= n,
                vs == declared.deep_view(),
                r.deep_view() == spec_relevant_packages(vs.take(i as int), platform),
            decreases n - i,
        {
            let vp = &declared[i];
            let ghost prev = spec_relevant_packages(vs.take(i as int), platform);
            proof {
                assert(r.deep_view().len() == r@.len());
                assert(vs.take(i as int + 1).drop_last() =~= vs.take(i as int));
                assert(vs.take(i as int + 1).last() == vs[i as int]);
            }
            if !non_relevant_virtual_packages_for_platform(vp, platform) {
                r.push(vp.duplicate());
                proof {
                    assert(r.deep_view() =~= prev + seq![vs[i as int]]);
                }
            } else {
                proof {
                    assert(prev + Seq::<VirtualPackageView>::empty() =~= prev);
                }
            }
            i = i + 1;
        }
        proof {
            assert(vs.take(n as int) =~= vs);
        }
        r
    }
}

/// Split candidate paths by their existence flags: the paths flagged true
/// are the effective scripts, the rest the missing ones to warn about.
pub fn partition_existing(paths: &Vec<String>, flags: &Vec<bool>) -> (r: (Vec<String>, Vec<String>))
    requires
        paths@.len() == flags@.len(),
    ensures
        r.0.deep_view() == spec_partition(paths.deep_view(), flags@, true),
        r.1.deep_view() == spec_partition(paths.deep_view(), flags@, false),
{
    let ghost ps = paths.deep_view();
    let n = paths.len();
    let mut kept: Vec<String> = Vec::new();
    let mut missing: Vec<String> = Vec::new();
    proof {
        assert(kept.deep_view() =~= spec_partition(ps.take(0), flags@.take(0), true));
        assert(missing.deep_view() =~= spec_partition(ps.take(0), flags@.take(0), false));
    }
    let mut i: usize = 0;
    while i < n
        invariant
            n == paths@.len(),
            n == flags@.len(),
            i <= n,
            ps == paths.deep_view(),
            kept.deep_view() == spec_partition(ps.take(i as int), flags@.take(i as int), true),
            missing.deep_view() == spec_partition(ps.take(i as int), flags@.take(i as int), false),
        decreases n - i,
    {
        let ghost pk = kept.deep_view();
        let ghost pm = missing.deep_view();
        proof {
            assert(kept.deep_view().len() == kept@.len());
            assert(missing.deep_view().len() == missing@.len());
            assert(ps.take(i as int + 1).drop_last() =~= ps.take(i as int));
            assert(flags@.take(i as int + 1).drop_last() =~= flags@.take(i as int));
            assert(ps.take(i as int + 1).last() == ps[i as int]);
            assert(flags@.take(i as int + 1).last() == flags@[i as int]);
        }
        if flags[i] {
            kept.push(paths[i].clone());
            proof {
                assert(kept.deep_view() =~= pk + seq![ps[i as int]]);
                assert(pm + Seq::<Seq<char>>::empty() =~= pm);
            }
        } else {
            missing.push(paths[i].clone());
            proof {
                assert(missing.deep_view() =~= pm + seq![ps[i as int]]);
                assert(pk + Seq::<Seq<char>>::empty() =~= pk);
            }
        }
        i = i + 1;
    }
    proof {
        assert(ps.take(n as int) =~= ps);
        assert(flags@.take(n as int) =~= flags@);
    }
    (kept, missing)
}

/// All dependencies for a platform: the per-kind merged maps combined in
/// run, host, build order with the same overwrite rule, so build-time
/// constraints take final precedence.
pub open spec fn spec_all_dependencies(f: FeatureView, platform: Platform) -> Seq<DepEntry> {
    merge_entries(
        merge_entries(
            spec_feature_dependencies(f, Some(platform), SpecType::Run),
            spec_feature_dependencies(f, Some(platform), SpecType::Host),
        ),
        spec_feature_dependencies(f, Some(platform), SpecType::Build),
    )
}

/// No name ever depends on itself in the reverse-dependency query.
pub proof fn lemma_depending_excludes(es: Seq<(Seq<char>, TaskView)>, name: Seq<char>)
    ensures
        forall|k: int|
            0 <= k < spec_depending(es, name).len() ==> #[trigger] spec_depending(es, name)[k]
                != name,
        forall|k: int|
            0 <= k < spec_task_names_depending_on(es, name).len()
                ==> #[trigger] spec_task_names_depending_on(es, name)[k] != name,
    decreases es.len(),
{
    if es.len() == 0 {
    } else {
        lemma_depending_excludes(es.drop_last(), name);
        let prev = spec_depending(es.drop_last(), name);
        assert forall|k: int|
            0 <= k < spec_depending(es, name).len() implies #[trigger] spec_depending(es, name)[k]
            != name by {
            if k < prev.len() {
                assert(spec_depending(es, name)[k] == prev[k]);
            }
        }
    }
    if has_key(es, name) {
        assert(spec_task_names_depending_on(es, name) == spec_depending(es, name));
    } else {
        assert(spec_task_names_depending_on(es, name).len() == 0);
    }
}

} // verus!
