//! The fixed names the project layout is keyed on.

use vstd::prelude::*;

verus! {

/// The fixed, case-sensitive file name that identifies a project manifest.
pub fn project_manifest_file() -> (r: &'static str)
    ensures
        r@ == "pixi.toml"@,
{
    "pixi.toml"
}

/// The fixed lock-file name in the project root.
pub fn project_lock_file() -> (r: &'static str)
    ensures
        r@ == "pixi.lock"@,
{
    "pixi.lock"
}

/// The fixed subdirectory for tool-managed state under the project root.
pub fn pixi_dir_name() -> (r: &'static str)
    ensures
        r@ == ".pixi"@,
{
    ".pixi"
}

/// The fixed subdirectory for environment data under the tool directory.
pub fn environment_dir_name() -> (r: &'static str)
    ensures
        r@ == "env"@,
{
    "env"
}

/// The manifest section name for PyPI dependencies.
pub fn pypi_dependencies_name() -> (r: &'static str)
    ensures
        r@ == "pypi-dependencies"@,
{
    "pypi-dependencies"
}

} // verus!
