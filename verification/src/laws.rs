//! The laws of the override/merge algebra, stated over the spec functions
//! that the public functions' contracts use.

use vstd::prelude::*;
use crate::SpecType;
use crate::deps::{
    DepEntry, has_key, value_of, unique_keys, merge_entries, lemma_find_key, lemma_merge_empty,
    lemma_merge_keys, lemma_merge_positions, lemma_merge_value_acc, lemma_merge_value_layer,
    lemma_find_key_append_left,
};
use crate::feature::{
    FeatureView, lemma_override_wf, spec_activation_block, spec_feature_dependencies,
    spec_feature_tasks, tasks_not_in,
};
use crate::platform::Platform;
use crate::project::{spec_all_dependencies, spec_task_names_depending_on, lemma_depending_excludes};
use crate::task::TaskView;

verus! {

/// Resolving the dependencies of a feature is a pure function of the
/// manifest and the request: two resolutions with no mutation in between
/// yield identical ordered maps.
pub proof fn lemma_all_dependencies_idempotent(
    f: FeatureView,
    platform: Platform,
    r1: Seq<DepEntry>,
    r2: Seq<DepEntry>,
)
    requires
        r1 == spec_all_dependencies(f, platform),
        r2 == spec_all_dependencies(f, platform),
    ensures
        r1 == r2,
{
}

/// Position stability: a package name declared in the default layer keeps
/// its position there in the merged map, while a platform override layer
/// that also declares the name replaces only its constraint.
pub proof fn lemma_position_stability(f: FeatureView, platform: Platform, kind: SpecType, i: int)
    requires
        f.wf(),
        f.override_for(Some(platform)) is Some,
        0 <= i < f.default_target.deps(kind).len(),
        has_key(
            f.override_for(Some(platform)).unwrap().deps(kind),
            f.default_target.deps(kind)[i].0,
        ),
    ensures
        ({
            let es = spec_feature_dependencies(f, Some(platform), kind);
            let de = f.default_target.deps(kind);
            let ov = f.override_for(Some(platform)).unwrap().deps(kind);
            &&& es.len() >= de.len()
            &&& es[i].0 == de[i].0
            &&& es[i].1 == value_of(ov, de[i].0)
        }),
{
    let de = f.default_target.deps(kind);
    let ov = f.override_for(Some(platform)).unwrap().deps(kind);
    lemma_override_wf(f, platform);
    lemma_merge_empty(de);
    lemma_merge_positions(de, ov);
}

/// No-override fallback: for a platform with no override layer the merged
/// map of a kind is the default layer's map exactly — same names, same
/// order, same constraints.
pub proof fn lemma_no_override_fallback(f: FeatureView, platform: Platform, kind: SpecType)
    requires
        f.wf(),
        f.override_for(Some(platform)) is None,
    ensures
        spec_feature_dependencies(f, Some(platform), kind) == f.default_target.deps(kind),
{
    lemma_merge_empty(f.default_target.deps(kind));
}

/// Kind precedence: a name declared as a run dependency in the default
/// layer and as a host dependency in the platform override keeps exactly
/// one entry in the combined map, carrying the host-kind constraint.
pub proof fn lemma_kind_precedence(f: FeatureView, platform: Platform, name: Seq<char>)
    requires
        f.wf(),
        f.override_for(Some(platform)) is Some,
        has_key(f.default_target.run, name),
        has_key(f.override_for(Some(platform)).unwrap().host, name),
        !has_key(f.default_target.host, name),
        !has_key(f.default_target.build, name),
        !has_key(f.override_for(Some(platform)).unwrap().build, name),
    ensures
        ({
            let es = spec_all_dependencies(f, platform);
            let ov = f.override_for(Some(platform)).unwrap();
            &&& unique_keys(es)
            &&& has_key(es, name)
            &&& value_of(es, name) == value_of(ov.host, name)
        }),
{
    let ov = f.override_for(Some(platform)).unwrap();
    lemma_override_wf(f, platform);
    let run_r = spec_feature_dependencies(f, Some(platform), SpecType::Run);
    let host_r = spec_feature_dependencies(f, Some(platform), SpecType::Host);
    let build_r = spec_feature_dependencies(f, Some(platform), SpecType::Build);
    let empty = Seq::<DepEntry>::empty();

    lemma_merge_keys(empty, f.default_target.run);
    lemma_merge_keys(merge_entries(empty, f.default_target.run), ov.run);
    assert(unique_keys(run_r));

    lemma_merge_empty(f.default_target.host);
    lemma_merge_keys(f.default_target.host, ov.host);
    assert(unique_keys(host_r));
    lemma_merge_value_layer(f.default_target.host, ov.host, name);
    assert(value_of(host_r, name) == value_of(ov.host, name));

    lemma_merge_empty(f.default_target.build);
    lemma_merge_keys(f.default_target.build, ov.build);
    assert(!has_key(build_r, name));

    let m1 = merge_entries(run_r, host_r);
    lemma_merge_keys(run_r, host_r);
    lemma_merge_value_layer(run_r, host_r, name);
    assert(value_of(m1, name) == value_of(ov.host, name));

    lemma_merge_keys(m1, build_r);
    lemma_merge_value_acc(m1, build_r, name);
}

/// Task override is total replacement: a task name redefined in the
/// platform override layer resolves to the override's whole definition,
/// dependency list included, never a union with the default's.
pub proof fn lemma_task_override_total(f: FeatureView, platform: Platform, name: Seq<char>)
    requires
        f.override_for(Some(platform)) is Some,
        has_key(f.override_for(Some(platform)).unwrap().tasks, name),
    ensures
        ({
            let es = spec_feature_tasks(f, Some(platform));
            let ov = f.override_for(Some(platform)).unwrap().tasks;
            &&& has_key(es, name)
            &&& value_of(es, name) == value_of(ov, name)
        }),
{
    let ov = f.override_for(Some(platform)).unwrap().tasks;
    let rest = tasks_not_in(f.default_target.tasks, ov);
    lemma_find_key_append_left(ov, rest, name);
}

/// Reverse-dependency exclusion: the query never names the task itself,
/// and is empty when the task is absent from the resolved map.
pub proof fn lemma_reverse_dependency_exclusion(
    es: Seq<(Seq<char>, TaskView)>,
    name: Seq<char>,
)
    ensures
        !spec_task_names_depending_on(es, name).contains(name),
        !has_key(es, name) ==> spec_task_names_depending_on(es, name) == Seq::<Seq<char>>::empty(),
{
    lemma_depending_excludes(es, name);
    if spec_task_names_depending_on(es, name).contains(name) {
        let w = choose|k: int|
            0 <= k < spec_task_names_depending_on(es, name).len()
                && spec_task_names_depending_on(es, name)[k] == name;
    }
}

/// Activation no-merge: where the platform override declares an activation
/// block, that block alone is chosen, even when the default layer declares
/// one of its own.
pub proof fn lemma_activation_no_merge(
    f: FeatureView,
    platform: Platform,
    scripts: Seq<Seq<char>>,
)
    requires
        f.override_for(Some(platform)) is Some,
        f.override_for(Some(platform)).unwrap().activation == Some(scripts),
    ensures
        spec_activation_block(f, Some(platform)) == Some(scripts),
{
}

} // verus!
