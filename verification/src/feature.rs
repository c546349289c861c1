//! A feature: one default configuration layer plus at most one override
//! layer per platform, and the resolution and aggregation rules over that
//! layering.  The resolver order (most specific first) is the single
//! source of truth: merge consumers traverse it in reverse, override
//! consumers traverse it forward.

use vstd::prelude::*;
use indexmap::IndexMap;
use crate::SpecType;
use crate::deps::{
    DepEntry, dep_entries, dep_map_new, dep_map_len, merge_into, merge_entries, upsert,
    unique_keys, has_key, value_of, lemma_upsert, lemma_find_key, lemma_find_key_first,
    lemma_merge_keys,
};
use crate::platform::Platform;
use crate::target::{Activation, Target, TargetView, task_entries, task_position};
use crate::task::{Task, TaskView};

verus! {

/// A named bundle of one default layer and per-platform override layers.
pub struct Feature {
    default_target: Target,
    platform_targets: Vec<(Platform, Target)>,
}

/// The mathematical content of a feature.
#[verifier::ext_equal]
pub ghost struct FeatureView {
    pub default_target: TargetView,
    pub platform_targets: Seq<(Platform, TargetView)>,
}

/// The platform-to-layer entries an override list holds.
pub open spec fn platform_entries(ts: Seq<(Platform, Target)>) -> Seq<(Platform, TargetView)> {
    ts.map(|i: int, p: (Platform, Target)| (p.0, p.1@))
}

impl View for Feature {
    type V = FeatureView;

    closed spec fn view(&self) -> FeatureView {
        FeatureView {
            default_target: self.default_target@,
            platform_targets: platform_entries(self.platform_targets@),
        }
    }
}

impl FeatureView {
    /// Well-formedness: every layer is well formed and each platform has
    /// at most one override layer.
    pub open spec fn wf(self) -> bool {
        &&& self.default_target.wf()
        &&& unique_keys(self.platform_targets)
        &&& forall|i: int|
            0 <= i < self.platform_targets.len() ==> (#[trigger] self.platform_targets[i].1).wf()
    }

    /// The override layer declared for a platform, if any.
    pub open spec fn override_for(self, platform: Option<Platform>) -> Option<TargetView> {
        match platform {
            Some(p) => if has_key(self.platform_targets, p) {
                Some(value_of(self.platform_targets, p))
            } else {
                None
            },
            None => None,
        }
    }

    /// The resolver sequence for a request: the override layer first where
    /// one exists, the default layer last.  Never longer than two.
    pub open spec fn spec_resolve(self, platform: Option<Platform>) -> Seq<TargetView> {
        match self.override_for(platform) {
            Some(t) => seq![t, self.default_target],
            None => seq![self.default_target],
        }
    }
}

/// The override layer for a platform is well formed whenever the feature is.
pub proof fn lemma_override_wf(f: FeatureView, platform: Platform)
    requires
        f.wf(),
        f.override_for(Some(platform)) is Some,
    ensures
        f.override_for(Some(platform)).unwrap().wf(),
{
    lemma_find_key(f.platform_targets, platform);
    let i = crate::deps::find_key(f.platform_targets, platform);
    assert(f.platform_targets[i].1.wf());
}

/// A merged dependency map keeps at most one entry per package name.
pub proof fn lemma_feature_dependencies_unique(
    f: FeatureView,
    platform: Option<Platform>,
    kind: SpecType,
)
    requires
        f.wf(),
    ensures
        unique_keys(spec_feature_dependencies(f, platform, kind)),
        unique_keys(spec_feature_pypi(f, platform)),
{
    let empty = Seq::<DepEntry>::empty();
    lemma_merge_keys(empty, f.default_target.deps(kind));
    lemma_merge_keys(empty, f.default_target.pypi);
    match platform {
        Some(p) => {
            if has_key(f.platform_targets, p) {
                lemma_override_wf(f, p);
                let ov = f.override_for(platform).unwrap();
                lemma_merge_keys(merge_entries(empty, f.default_target.deps(kind)), ov.deps(kind));
                lemma_merge_keys(merge_entries(empty, f.default_target.pypi), ov.pypi);
            }
        },
        None => {},
    }
}

/// The merged dependency entries of one kind for a request: the default
/// layer folded first, the override layer folded over it.
pub open spec fn spec_feature_dependencies(
    f: FeatureView,
    platform: Option<Platform>,
    kind: SpecType,
) -> Seq<DepEntry> {
    let base = merge_entries(Seq::<DepEntry>::empty(), f.default_target.deps(kind));
    match f.override_for(platform) {
        Some(t) => merge_entries(base, t.deps(kind)),
        None => base,
    }
}

/// The merged PyPI dependency entries for a request.
pub open spec fn spec_feature_pypi(f: FeatureView, platform: Option<Platform>) -> Seq<DepEntry> {
    let base = merge_entries(Seq::<DepEntry>::empty(), f.default_target.pypi);
    match f.override_for(platform) {
        Some(t) => merge_entries(base, t.pypi),
        None => base,
    }
}

/// The entries of `def` whose names do not occur in `ov`, in order.
pub open spec fn tasks_not_in(
    def: Seq<(Seq<char>, TaskView)>,
    ov: Seq<(Seq<char>, TaskView)>,
) -> Seq<(Seq<char>, TaskView)>
    decreases def.len(),
{
    if def.len() == 0 {
        Seq::<(Seq<char>, TaskView)>::empty()
    } else {
        tasks_not_in(def.drop_last(), ov) + (if has_key(ov, def.last().0) {
            Seq::<(Seq<char>, TaskView)>::empty()
        } else {
            seq![def.last()]
        })
    }
}

/// The effective task map for a request, by override semantics: every task
/// of the override layer, then the default layer's tasks whose names the
/// override layer does not redefine.
pub open spec fn spec_feature_tasks(f: FeatureView, platform: Option<Platform>) -> Seq<
    (Seq<char>, TaskView),
> {
    let ov = match f.override_for(platform) {
        Some(t) => t.tasks,
        None => Seq::<(Seq<char>, TaskView)>::empty(),
    };
    ov + tasks_not_in(f.default_target.tasks, ov)
}

/// The activation block chosen for a request: the first declared block in
/// resolver order, never a merge of several.
pub open spec fn spec_activation_block(f: FeatureView, platform: Option<Platform>) -> Option<
    Seq<Seq<char>>,
> {
    match f.override_for(platform) {
        Some(t) => if t.activation is Some {
            t.activation
        } else {
            f.default_target.activation
        },
        None => f.default_target.activation,
    }
}

/// The name-to-task entries a reference list holds.
pub open spec fn task_ref_entries(s: Seq<(&String, &Task)>) -> Seq<(Seq<char>, TaskView)> {
    Seq::new(s.len(), |k: int| (s[k].0@, s[k].1@))
}

impl Feature {
    /// A feature with the given default layer and no overrides.
    pub fn new(default_target: Target) -> (f: Feature)
        ensures
            f@ == (FeatureView {
                default_target: default_target@,
                platform_targets: Seq::<(Platform, TargetView)>::empty(),
            }),
    {
        let f = Feature { default_target, platform_targets: Vec::new() };
        proof {
            assert(platform_entries(f.platform_targets@) =~= Seq::<(Platform, TargetView)>::empty());
            assert(f@ =~= (FeatureView {
                default_target: f.default_target@,
                platform_targets: Seq::<(Platform, TargetView)>::empty(),
            }));
        }
        f
    }

    /// The default layer.
    pub fn default_target(&self) -> (r: &Target)
        ensures
            r@ == self@.default_target,
    {
        &self.default_target
    }

    /// Declare the override layer for a platform, replacing any earlier one.
    pub fn set_platform_target(&mut self, platform: Platform, target: Target)
        ensures
            final(self)@ == (FeatureView {
                platform_targets: upsert(old(self)@.platform_targets, platform, target@),
                ..old(self)@
            }),
            old(self)@.wf() && target@.wf() ==> final(self)@.wf(),
    {
        proof {
            if old(self)@.wf() {
                lemma_upsert(old(self)@.platform_targets, platform, target@);
            }
            lemma_find_key(old(self)@.platform_targets, platform);
        }
        let ghost pre = self.platform_targets@;
        match platform_position(&self.platform_targets, platform) {
            Some(i) => {
                self.platform_targets.remove(i);
                self.platform_targets.insert(i, (platform, target));
                proof {
                    assert(platform_entries(self.platform_targets@) =~= upsert(
                        platform_entries(pre),
                        platform,
                        target@,
                    ));
                }
            },
            None => {
                self.platform_targets.push((platform, target));
                proof {
                    assert(platform_entries(self.platform_targets@) =~= upsert(
                        platform_entries(pre),
                        platform,
                        target@,
                    ));
                }
            },
        }
        proof {
            assert(self@ =~= (FeatureView {
                platform_targets: upsert(old(self)@.platform_targets, platform, target@),
                ..old(self)@
            }));
        }
    }

    /// The override layer declared for a platform, if any.
    pub fn target_for(&self, platform: Platform) -> (r: Option<&Target>)
        ensures
            r is Some <==> has_key(self@.platform_targets, platform),
            r matches Some(t) ==> Some(t@) == self@.override_for(Some(platform)),
    {
        match platform_position(&self.platform_targets, platform) {
            Some(i) => {
                let pair = &self.platform_targets[i];
                proof {
                    lemma_find_key(self@.platform_targets, platform);
                }
                Some(&pair.1)
            },
            None => None,
        }
    }

    /// The ordered sequence of layers applicable to a request, most
    /// specific first.
    pub fn resolve(&self, platform: Option<Platform>) -> (r: Vec<&Target>)
        ensures
            r@.map(|i: int, t: &Target| t@) == self@.spec_resolve(platform),
            1 <= r@.len() <= 2,
    {
        let mut r: Vec<&Target> = Vec::new();
        match platform {
            Some(p) => {
                match self.target_for(p) {
                    Some(t) => r.push(t),
                    None => (),
                }
            },
            None => (),
        }
        r.push(&self.default_target);
        proof {
            assert(r@.map(|i: int, t: &Target| t@) =~= self@.spec_resolve(platform));
        }
        r
    }

    /// The merged dependency map of one kind for a request: least specific
    /// layer folded first, each later layer overwriting values in place
    /// and appending new names.
    pub fn dependencies(&self, platform: Option<Platform>, kind: SpecType) -> (m: IndexMap<String, String>)
        ensures
            dep_entries(m) == spec_feature_dependencies(self@, platform, kind),
            self@.wf() ==> unique_keys(dep_entries(m)),
    {
        proof {
            if self@.wf() {
                lemma_feature_dependencies_unique(self@, platform, kind);
            }
        }
        let mut acc = dep_map_new();
        merge_into(&mut acc, self.default_target.dependencies(kind));
        match platform {
            Some(p) => {
                match self.target_for(p) {
                    Some(t) => merge_into(&mut acc, t.dependencies(kind)),
                    None => (),
                }
            },
            None => (),
        }
        acc
    }

    /// The merged PyPI dependency map for a request, by the same rule.
    pub fn pypi_dependencies(&self, platform: Option<Platform>) -> (m: IndexMap<String, String>)
        ensures
            dep_entries(m) == spec_feature_pypi(self@, platform),
            self@.wf() ==> unique_keys(dep_entries(m)),
    {
        proof {
            if self@.wf() {
                lemma_feature_dependencies_unique(self@, platform, SpecType::Run);
            }
        }
        let mut acc = dep_map_new();
        merge_into(&mut acc, self.default_target.pypi_dependencies());
        match platform {
            Some(p) => {
                match self.target_for(p) {
                    Some(t) => merge_into(&mut acc, t.pypi_dependencies()),
                    None => (),
                }
            },
            None => (),
        }
        acc
    }

    /// The effective task map for a request, by override semantics.
    pub fn tasks(&self, platform: Option<Platform>) -> (r: Vec<(&String, &Task)>)
        ensures
            task_ref_entries(r@) == spec_feature_tasks(self@, platform),
    {
        let ov: Option<&Vec<(String, Task)>> = match platform {
            Some(p) => {
                match self.target_for(p) {
                    Some(t) => Some(t.tasks()),
                    None => None,
                }
            },
            None => None,
        };
        let ghost ov_entries = match ov {
            Some(l) => task_entries(l@),
            None => Seq::<(Seq<char>, TaskView)>::empty(),
        };
        let mut r: Vec<(&String, &Task)> = Vec::new();
        match ov {
            Some(list) => {
                let n = list.len();
                let mut i: usize = 0;
                while i < n
                    invariant
                        n == list@.len(),
                        i <= n,
                        ov_entries == task_entries(list@),
                        task_ref_entries(r@) == ov_entries.take(i as int),
                    decreases n - i,
                {
                    let pair = &list[i];
                    proof {
                        assert(task_ref_entries(r@).len() == i);
                    }
                    r.push((&pair.0, &pair.1));
                    proof {
                        assert(task_ref_entries(r@) =~= ov_entries.take(i as int + 1));
                    }
                    i = i + 1;
                }
                proof {
                    assert(ov_entries.take(n as int) =~= ov_entries);
                }
            },
            None => {
                proof {
                    assert(task_ref_entries(r@) =~= ov_entries.take(0));
                }
            },
        }
        let def = self.default_target.tasks();
        let ghost de = task_entries(def@);
        proof {
            assert(tasks_not_in(de.take(0), ov_entries) =~= Seq::<(Seq<char>, TaskView)>::empty());
            assert(task_ref_entries(r@) =~= ov_entries + tasks_not_in(de.take(0), ov_entries));
        }
        let m = def.len();
        let mut j: usize = 0;
        while j < m
            invariant
                m == def@.len(),
                de == task_entries(def@),
                j <= m,
                ov_entries == (match ov {
                    Some(l) => task_entries(l@),
                    None => Seq::<(Seq<char>, TaskView)>::empty(),
                }),
                task_ref_entries(r@) == ov_entries + tasks_not_in(de.take(j as int), ov_entries),
            decreases m - j,
        {
            let pair = &def[j];
            let absent = match ov {
                Some(list) => task_position(list, &pair.0).is_none(),
                None => true,
            };
            proof {
                assert(absent == !has_key(ov_entries, de[j as int].0)) by {
                    if has_key(ov_entries, de[j as int].0) {
                        lemma_find_key(ov_entries, de[j as int].0);
                    }
                }
            }
            let ghost prev = tasks_not_in(de.take(j as int), ov_entries);
            proof {
                assert(task_ref_entries(r@).len() == r@.len());
                assert(de.take(j as int + 1).drop_last() =~= de.take(j as int));
                assert(de.take(j as int + 1).last() == de[j as int]);
                assert(tasks_not_in(de.take(j as int + 1), ov_entries) == prev + (if has_key(
                    ov_entries,
                    de[j as int].0,
                ) {
                    Seq::<(Seq<char>, TaskView)>::empty()
                } else {
                    seq![de[j as int]]
                }));
            }
            if absent {
                r.push((&pair.0, &pair.1));
                proof {
                    assert(task_ref_entries(r@) =~= (ov_entries + prev).push(de[j as int]));
                    assert((ov_entries + prev).push(de[j as int]) =~= ov_entries + (prev + seq![
                        de[j as int],
                    ]));
                }
            } else {
                proof {
                    assert(prev + Seq::<(Seq<char>, TaskView)>::empty() =~= prev);
                }
            }
            proof {
                assert(task_ref_entries(r@) =~= ov_entries + tasks_not_in(
                    de.take(j as int + 1),
                    ov_entries,
                ));
            }
            j = j + 1;
        }
        proof {
            assert(de.take(m as int) =~= de);
        }
        r
    }

    /// The activation block chosen for a request: the first declared block
    /// in resolver order.
    pub fn activation(&self, platform: Option<Platform>) -> (r: Option<&Activation>)
        ensures
            r is Some <==> spec_activation_block(self@, platform) is Some,
            r matches Some(a) ==> spec_activation_block(self@, platform) == Some(
                a.scripts.deep_view(),
            ),
    {
        match platform {
            Some(p) => {
                match self.target_for(p) {
                    Some(t) => {
                        match t.activation() {
                            Some(a) => Some(a),
                            None => self.default_target.activation(),
                        }
                    },
                    None => self.default_target.activation(),
                }
            },
            None => self.default_target.activation(),
        }
    }
}

/// Whether any layer of a feature declares a PyPI dependency.
pub open spec fn spec_has_pypi(f: FeatureView) -> bool {
    ||| f.default_target.pypi.len() > 0
    ||| exists|i: int|
        0 <= i < f.platform_targets.len() && (#[trigger] f.platform_targets[i].1).pypi.len() > 0
}

impl Feature {
    /// Whether any layer of this feature declares a PyPI dependency.
    pub fn has_pypi_dependencies(&self) -> (r: bool)
        ensures
            r == spec_has_pypi(self@),
    {
        if dep_map_len(self.default_target.pypi_dependencies()) > 0 {
            return true;
        }
        let n = self.platform_targets.len();
        let mut i: usize = 0;
        while i < n
            invariant
                n == self.platform_targets@.len(),
                i <= n,
                forall|j: int|
                    0 <= j < i ==> (#[trigger] platform_entries(
                        self.platform_targets@,
                    )[j].1).pypi.len() == 0,
            decreases n - i,
        {
            let pair = &self.platform_targets[i];
            if dep_map_len(pair.1.pypi_dependencies()) > 0 {
                proof {
                    assert((platform_entries(self.platform_targets@)[i as int].1).pypi.len() > 0);
                }
                return true;
            }
            i = i + 1;
        }
        proof {
            if spec_has_pypi(self@) {
                let w = choose|k: int|
                    0 <= k < self@.platform_targets.len()
                        && (#[trigger] self@.platform_targets[k].1).pypi.len() > 0;
            }
        }
        false
    }
}

/// The position of a platform in an override list, if one is declared.
pub fn platform_position(ts: &Vec<(Platform, Target)>, platform: Platform) -> (r: Option<usize>)
    ensures
        r matches Some(i) ==> i < ts@.len() && platform_entries(ts@)[i as int].0 == platform
            && crate::deps::find_key(platform_entries(ts@), platform) == i as int,
        r is None ==> !has_key(platform_entries(ts@), platform),
{
    let n = ts.len();
    let mut i: usize = 0;
    while i < n
        invariant
            n == ts@.len(),
            i <= n,
            forall|j: int| 0 <= j < i ==> platform_entries(ts@)[j].0 != platform,
        decreases n - i,
    {
        if ts[i].0 == platform {
            proof {
                assert(platform_entries(ts@)[i as int].0 == platform);
                lemma_find_key_first(platform_entries(ts@), platform, i as int);
            }
            return Some(i);
        }
        i = i + 1;
    }
    proof {
        if has_key(platform_entries(ts@), platform) {
            let w = choose|k: int|
                0 <= k < platform_entries(ts@).len() && platform_entries(ts@)[k].0 == platform;
        }
    }
    None
}

} // verus!
