//! The private runtime: where it lives, when it counts as installed, and what
//! has to be done to it before the application can start.

use vstd::prelude::*;

verus! {

/// The folder of the application below the user's local data directory.
pub const APPLICATION_DIRECTORY: &'static str = "RLBotGUIX";

/// The folder of the runtime below the application's folder.
pub const RUNTIME_DIRECTORY: &'static str = "Python311";

/// The interpreter's executable below the runtime's folder.
pub const INTERPRETER: &'static str = "python.exe";

/// The number of crucial components: the paths without which the runtime
/// counts as missing or broken. The interpreter is one of them.
pub const CRUCIAL_COMPONENTS: usize = 1;

/// The number of package manager invocations that bring the packages up to
/// date. They run in order, from the first to the last.
pub const PACKAGE_SYNC_STEPS: usize = 3;

/// What has to be done to the runtime before it is used.
#[derive(Debug, Clone, Copy, PartialEq, Eq, Structural)]
pub struct RuntimePlan {
    /// The runtime's folder is deleted first.
    pub remove: bool,
    /// The runtime is installed from the archive.
    pub provision: bool,
}

/// Every crucial component was found.
pub open spec fn all_present(components: Seq<bool>) -> bool {
    forall|i: int| 0 <= i < components.len() ==> components[i]
}

/// A look at the disk is complete: it tells of each crucial component.
pub open spec fn complete_report(components: Seq<bool>) -> bool {
    components.len() == CRUCIAL_COMPONENTS
}

/// The runtime is installed and usable: there is at least one crucial
/// component, and every one was found. Where none was looked for, nothing
/// shows that the interpreter is there, and the runtime does not count as
/// healthy.
pub open spec fn healthy(components: Seq<bool>) -> bool {
    components.len() > 0 && all_present(components)
}

/// The plan for a runtime as it was found. A folder that exists is deleted
/// where a reinstall is asked for or the runtime is broken; the runtime is
/// installed where it is not healthy or a reinstall is asked for.
pub open spec fn runtime_plan(
    directory_exists: bool,
    healthy: bool,
    reinstall: bool,
) -> RuntimePlan {
    RuntimePlan {
        remove: directory_exists && (reinstall || !healthy),
        provision: !healthy || reinstall,
    }
}

/// The paths, below the runtime's folder, without which the runtime counts
/// as missing or broken.
pub fn crucial_components() -> (paths: Vec<&'static str>)
    ensures
        paths@ == seq![INTERPRETER],
        paths.len() == CRUCIAL_COMPONENTS,
{
    let mut paths: Vec<&'static str> = Vec::new();
    paths.push(INTERPRETER);
    paths
}

/// Whether the runtime is installed and usable, given for each crucial
/// component whether it was found on disk.
pub fn runtime_healthy(components: &[bool]) -> (found: bool)
    ensures
        found == healthy(components@),
{
    if components.len() == 0 {
        return false;
    }
    let mut index: usize = 0;
    while index < components.len()
        invariant
            index <= components.len(),
            forall|i: int| 0 <= i < index ==> components[i],
        decreases components.len() - index,
    {
        if !components[index] {
            return false;
        }
        index += 1;
    }
    true
}

/// Plans what to do to the runtime as it was found.
pub fn plan_runtime(directory_exists: bool, healthy: bool, reinstall: bool) -> (plan: RuntimePlan)
    ensures
        plan == runtime_plan(directory_exists, healthy, reinstall),
{
    RuntimePlan {
        remove: directory_exists && (reinstall || !healthy),
        provision: !healthy || reinstall,
    }
}

} // verus!
