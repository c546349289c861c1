use pixi_core::SpecType;
use pixi_core::feature::Feature;
use pixi_core::manifest::{Manifest, ProjectMetadata};
use pixi_core::platform::Platform;
use pixi_core::project::{Project, partition_existing};
use pixi_core::system_requirements::{LibCRequirement, SystemRequirements, VirtualPackage};
use pixi_core::target::Target;
use pixi_core::task::Task;

fn metadata() -> ProjectMetadata {
    ProjectMetadata {
        name: "foo".to_string(),
        version: Some("0.1.0".to_string()),
        description: None,
        channels: Vec::new(),
        platforms: vec![Platform::Linux64, Platform::Win64],
    }
}

fn project_from_default(default_target: Target) -> Project {
    let feature = Feature::new(default_target);
    let manifest = Manifest::new(String::new(), metadata(), feature);
    Project::from_manifest(manifest)
}

fn project_from_feature(feature: Feature) -> Project {
    let manifest = Manifest::new(String::new(), metadata(), feature);
    Project::from_manifest(manifest)
}

fn entries(m: &indexmap::IndexMap<String, String>) -> Vec<(String, String)> {
    let mut v = Vec::new();
    let mut i = 0;
    while i < m.len() {
        let (k, val) = m.get_index(i).unwrap();
        v.push((k.clone(), val.clone()));
        i += 1;
    }
    v
}

fn libc_requirements(family: Option<&str>) -> SystemRequirements {
    SystemRequirements {
        linux: None,
        libc: Some(LibCRequirement {
            family: family.map(|f| f.to_string()),
            version: "2.12".to_string(),
        }),
        macos: None,
        cuda: None,
        archspec: None,
    }
}

#[test]
fn test_system_requirements_edge_cases() {
    // The manifest parser reads all of these spellings into the same
    // requirement set: `libc = { version = "2.12" }`, `libc = "2.12"`,
    // `[system-requirements.libc] version = "2.12"`, and the same with an
    // explicit `family = "glibc"`.
    let requirement_sets = [
        libc_requirements(None),
        libc_requirements(None),
        libc_requirements(None),
        libc_requirements(Some("glibc")),
    ];

    for requirements in requirement_sets {
        let mut target = Target::new();
        target.set_system_requirements(requirements);
        let project = project_from_default(target);

        let virtual_packages = project.system_requirements().virtual_packages();
        assert_eq!(virtual_packages.len(), 1);
        match &virtual_packages[0] {
            VirtualPackage::LibC { family, version } => {
                assert_eq!(family, "glibc");
                assert_eq!(version, "2.12");
            }
            _ => panic!("expected a libc virtual package"),
        }
    }
}

fn default_dependency_sets() -> Target {
    let mut t = Target::new();
    t.add_dependency(SpecType::Run, "foo".to_string(), "1.0".to_string());
    t.add_dependency(SpecType::Host, "libc".to_string(), "2.12".to_string());
    t.add_dependency(SpecType::Build, "bar".to_string(), "1.0".to_string());
    t
}

#[test]
fn test_dependency_sets() {
    let project = project_from_default(default_dependency_sets());

    let all = project.all_dependencies(Platform::Linux64);
    assert_eq!(
        entries(&all),
        vec![
            ("foo".to_string(), "1.0".to_string()),
            ("libc".to_string(), "2.12".to_string()),
            ("bar".to_string(), "1.0".to_string()),
        ]
    );
}

#[test]
fn test_dependency_target_sets() {
    let mut feature = Feature::new(default_dependency_sets());
    let mut linux = Target::new();
    linux.add_dependency(SpecType::Build, "baz".to_string(), "1.0".to_string());
    linux.add_dependency(SpecType::Host, "banksy".to_string(), "1.0".to_string());
    linux.add_dependency(SpecType::Run, "wolflib".to_string(), "1.0".to_string());
    feature.set_platform_target(Platform::Linux64, linux);
    let project = project_from_feature(feature);

    let all = project.all_dependencies(Platform::Linux64);
    assert_eq!(
        entries(&all),
        vec![
            ("foo".to_string(), "1.0".to_string()),
            ("wolflib".to_string(), "1.0".to_string()),
            ("libc".to_string(), "2.12".to_string()),
            ("banksy".to_string(), "1.0".to_string()),
            ("bar".to_string(), "1.0".to_string()),
            ("baz".to_string(), "1.0".to_string()),
        ]
    );
}

#[test]
fn test_activation_scripts() {
    let mut default_target = Target::new();
    default_target.set_activation(vec!["pixi.toml".to_string(), "pixi.lock".to_string()]);
    let mut feature = Feature::new(default_target);

    let mut linux = Target::new();
    linux.set_activation(vec!["Cargo.toml".to_string()]);
    feature.set_platform_target(Platform::Linux64, linux);

    let mut win = Target::new();
    win.set_activation(vec!["Cargo.lock".to_string()]);
    feature.set_platform_target(Platform::Win64, win);

    let project = project_from_feature(feature);

    assert_eq!(
        project.activation_script_candidates(Platform::Linux64),
        vec!["/Cargo.toml".to_string()]
    );
    assert_eq!(
        project.activation_script_candidates(Platform::Win64),
        vec!["/Cargo.lock".to_string()]
    );
    assert_eq!(
        project.activation_script_candidates(Platform::OsxArm64),
        vec!["/pixi.toml".to_string(), "/pixi.lock".to_string()]
    );
}

#[test]
fn test_target_specific_tasks() {
    let mut default_target = Target::new();
    default_target.add_task("test".to_string(), Task::new("test multi".to_string(), Vec::new()));
    let mut feature = Feature::new(default_target);

    let mut win = Target::new();
    win.add_task("test".to_string(), Task::new("test win".to_string(), Vec::new()));
    feature.set_platform_target(Platform::Win64, win);

    let mut linux = Target::new();
    linux.add_task("test".to_string(), Task::new("test linux".to_string(), Vec::new()));
    feature.set_platform_target(Platform::Linux64, linux);

    let project = project_from_feature(feature);

    let osx = project.tasks(Some(Platform::Osx64));
    assert_eq!(osx.len(), 1);
    assert_eq!(osx[0].0, "test");
    assert_eq!(osx[0].1.cmd(), "test multi");

    let win = project.tasks(Some(Platform::Win64));
    assert_eq!(win.len(), 1);
    assert_eq!(win[0].1.cmd(), "test win");

    let linux = project.tasks(Some(Platform::Linux64));
    assert_eq!(linux.len(), 1);
    assert_eq!(linux[0].1.cmd(), "test linux");
}

#[test]
fn all_dependencies_is_idempotent() {
    let mut feature = Feature::new(default_dependency_sets());
    let mut linux = Target::new();
    linux.add_dependency(SpecType::Run, "wolflib".to_string(), "1.0".to_string());
    feature.set_platform_target(Platform::Linux64, linux);
    let project = project_from_feature(feature);

    let first = entries(&project.all_dependencies(Platform::Linux64));
    let second = entries(&project.all_dependencies(Platform::Linux64));
    assert_eq!(first, second);
}

#[test]
fn override_preserves_position_and_replaces_value() {
    let mut default_target = Target::new();
    default_target.add_dependency(SpecType::Run, "alpha".to_string(), "1".to_string());
    default_target.add_dependency(SpecType::Run, "beta".to_string(), "1".to_string());
    default_target.add_dependency(SpecType::Run, "gamma".to_string(), "1".to_string());
    let mut feature = Feature::new(default_target);

    let mut linux = Target::new();
    linux.add_dependency(SpecType::Run, "beta".to_string(), "2".to_string());
    linux.add_dependency(SpecType::Run, "delta".to_string(), "1".to_string());
    feature.set_platform_target(Platform::Linux64, linux);
    let project = project_from_feature(feature);

    let deps = project.dependencies(Platform::Linux64, SpecType::Run);
    assert_eq!(
        entries(&deps),
        vec![
            ("alpha".to_string(), "1".to_string()),
            ("beta".to_string(), "2".to_string()),
            ("gamma".to_string(), "1".to_string()),
            ("delta".to_string(), "1".to_string()),
        ]
    );
}

#[test]
fn kind_precedence_keeps_one_entry() {
    let mut default_target = Target::new();
    default_target.add_dependency(SpecType::Run, "shared".to_string(), "run-1".to_string());
    let mut feature = Feature::new(default_target);

    let mut linux = Target::new();
    linux.add_dependency(SpecType::Host, "shared".to_string(), "host-2".to_string());
    feature.set_platform_target(Platform::Linux64, linux);
    let project = project_from_feature(feature);

    let all = project.all_dependencies(Platform::Linux64);
    assert_eq!(
        entries(&all),
        vec![("shared".to_string(), "host-2".to_string())]
    );
}

#[test]
fn no_override_falls_back_to_default() {
    let project = project_from_default(default_dependency_sets());

    let deps = project.dependencies(Platform::Win64, SpecType::Run);
    assert_eq!(entries(&deps), vec![("foo".to_string(), "1.0".to_string())]);
    let host = project.dependencies(Platform::Win64, SpecType::Host);
    assert_eq!(entries(&host), vec![("libc".to_string(), "2.12".to_string())]);
}

#[test]
fn task_override_replaces_dependency_list() {
    let mut default_target = Target::new();
    default_target.add_task(
        "build".to_string(),
        Task::new("make".to_string(), vec!["configure".to_string()]),
    );
    default_target.add_task("configure".to_string(), Task::new("cmake".to_string(), Vec::new()));
    let mut feature = Feature::new(default_target);

    let mut win = Target::new();
    win.add_task("build".to_string(), Task::new("msbuild".to_string(), Vec::new()));
    feature.set_platform_target(Platform::Win64, win);
    let project = project_from_feature(feature);

    let task = project.task_opt(&"build".to_string(), Some(Platform::Win64)).unwrap();
    assert_eq!(task.cmd(), "msbuild");
    assert!(task.depends_on().is_empty());

    let default_task = project.task_opt(&"build".to_string(), Some(Platform::Linux64)).unwrap();
    assert_eq!(default_task.cmd(), "make");
    assert_eq!(default_task.depends_on(), &vec!["configure".to_string()]);
}

#[test]
fn reverse_dependencies_exclude_self_and_missing() {
    let mut default_target = Target::new();
    default_target.add_task("configure".to_string(), Task::new("cmake".to_string(), Vec::new()));
    default_target.add_task(
        "build".to_string(),
        Task::new("make".to_string(), vec!["configure".to_string()]),
    );
    default_target.add_task(
        "test".to_string(),
        Task::new("ctest".to_string(), vec!["build".to_string(), "configure".to_string()]),
    );
    let project = project_from_default(Target::new());
    let project_with_tasks = {
        let feature = Feature::new(default_target);
        project_from_feature(feature)
    };

    let depending = project_with_tasks
        .task_names_depending_on_for(&"configure".to_string(), Some(Platform::Linux64));
    let names: Vec<&str> = depending.iter().map(|s| s.as_str()).collect();
    assert_eq!(names, vec!["build", "test"]);
    assert!(!names.contains(&"configure"));

    let missing = project_with_tasks
        .task_names_depending_on_for(&"absent".to_string(), Some(Platform::Linux64));
    assert!(missing.is_empty());

    // The host-platform variant returns empty for a task no layer defines.
    assert!(project.task_names_depending_on(&"anything".to_string()).is_empty());
}

#[test]
fn activation_blocks_never_merge() {
    let mut default_target = Target::new();
    default_target.set_activation(vec!["a.sh".to_string(), "b.sh".to_string()]);
    let mut feature = Feature::new(default_target);

    let mut linux = Target::new();
    linux.set_activation(vec!["c.sh".to_string()]);
    feature.set_platform_target(Platform::Linux64, linux);
    let project = project_from_feature(feature);

    assert_eq!(
        project.activation_script_candidates(Platform::Linux64),
        vec!["/c.sh".to_string()]
    );
}

#[test]
fn partition_keeps_declared_order_and_reports_missing() {
    let paths = vec!["/a.sh".to_string(), "/b.sh".to_string(), "/c.sh".to_string()];
    let flags = vec![true, false, true];
    let (kept, missing) = partition_existing(&paths, &flags);
    assert_eq!(kept, vec!["/a.sh".to_string(), "/c.sh".to_string()]);
    assert_eq!(missing, vec!["/b.sh".to_string()]);
}

#[test]
fn normalized_names_are_lowercased_and_validated() {
    let mut t = Target::new();
    assert!(t.add_normalized_dependency(SpecType::Run, "FooBar", "1.0".to_string()));
    assert!(!t.add_normalized_dependency(SpecType::Run, "bad name!", "1.0".to_string()));
    let project = project_from_default(t);
    let deps = project.dependencies(Platform::Linux64, SpecType::Run);
    assert_eq!(entries(&deps), vec![("foobar".to_string(), "1.0".to_string())]);
}

#[test]
fn platform_names_round_trip() {
    assert_eq!(Platform::from_name("linux-64"), Some(Platform::Linux64));
    assert_eq!(Platform::from_name("osx-arm64"), Some(Platform::OsxArm64));
    assert_eq!(Platform::from_name("commodore-64"), None);
    assert_eq!(Platform::Win64.name(), "win-64");
    assert!(Platform::Linux64.is_linux());
    assert!(!Platform::Linux64.is_windows());
    assert!(Platform::OsxArm64.is_osx());
}

#[test]
fn virtual_packages_filter_by_relevance() {
    let requirements = SystemRequirements {
        linux: Some("5.10".to_string()),
        libc: Some(LibCRequirement { family: None, version: "2.17".to_string() }),
        macos: Some("12.0".to_string()),
        cuda: Some("11.0".to_string()),
        archspec: None,
    };
    let mut target = Target::new();
    target.set_system_requirements(requirements);
    let project = project_from_default(target);

    let linux = project.virtual_packages_for_platform(Platform::Linux64);
    assert_eq!(linux.len(), 3);
    assert!(matches!(&linux[0], VirtualPackage::Linux { version } if version == "5.10"));
    assert!(matches!(&linux[1], VirtualPackage::LibC { family, version }
        if family == "glibc" && version == "2.17"));
    assert!(matches!(&linux[2], VirtualPackage::Cuda { version } if version == "11.0"));

    let osx = project.virtual_packages_for_platform(Platform::OsxArm64);
    assert_eq!(osx.len(), 2);
    assert!(matches!(&osx[0], VirtualPackage::Osx { version } if version == "12.0"));
    assert!(matches!(&osx[1], VirtualPackage::Cuda { version } if version == "11.0"));
}

#[test]
fn project_paths_and_metadata() {
    let feature = Feature::new(Target::new());
    let manifest = Manifest::new("[project]".to_string(), metadata(), feature);
    let project = Project::from_manifest_at("/work/demo".to_string(), manifest);

    assert_eq!(project.name(), "foo");
    assert_eq!(project.version(), &Some("0.1.0".to_string()));
    assert_eq!(project.description(), &None);
    assert_eq!(project.root(), "/work/demo");
    assert_eq!(project.pixi_dir(), "/work/demo/.pixi");
    assert_eq!(project.environment_dir(), "/work/demo/.pixi/env");
    assert_eq!(project.manifest_path(), "/work/demo/pixi.toml");
    assert_eq!(project.lock_file_path(), "/work/demo/pixi.lock");
    assert_eq!(project.manifest().contents(), "[project]");
    assert_eq!(
        project.platforms(),
        &vec![Platform::Linux64, Platform::Win64]
    );
    assert!(project.channels().is_empty());
}

#[test]
fn pypi_dependencies_merge_and_detection() {
    let mut default_target = Target::new();
    default_target.add_pypi_dependency("requests".to_string(), ">=2.0".to_string());
    let mut feature = Feature::new(default_target);

    let mut linux = Target::new();
    linux.add_pypi_dependency("requests".to_string(), ">=2.28".to_string());
    linux.add_pypi_dependency("numpy".to_string(), "*".to_string());
    feature.set_platform_target(Platform::Linux64, linux);
    let project = project_from_feature(feature);

    assert!(project.has_pypi_dependencies());
    let pypi = project.pypi_dependencies(Platform::Linux64);
    assert_eq!(
        entries(&pypi),
        vec![
            ("requests".to_string(), ">=2.28".to_string()),
            ("numpy".to_string(), "*".to_string()),
        ]
    );

    let bare = project_from_default(Target::new());
    assert!(!bare.has_pypi_dependencies());
}

#[test]
fn dependency_section_names() {
    assert_eq!(SpecType::Run.name(), "dependencies");
    assert_eq!(SpecType::Host.name(), "host-dependencies");
    assert_eq!(SpecType::Build.name(), "build-dependencies");
    assert_eq!(
        pixi_core::DependencyType::CondaDependency(SpecType::Host).name(),
        "host-dependencies"
    );
    assert_eq!(
        pixi_core::DependencyType::PypiDependency.name(),
        "pypi-dependencies"
    );
}
