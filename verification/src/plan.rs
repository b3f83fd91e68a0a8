//! How the service process is to be started.

use vstd::prelude::*;
use crate::paths::{entry_script, entry_script_of};
use crate::text::{decimal, decimal_text};

verus! {

/// One environment variable set on the service process.
pub struct EnvVar {
    pub name: String,
    pub value: String,
}

/// Everything needed to start the service process.
pub struct SpawnPlan {
    /// The program to run.
    pub program: String,
    /// Its single argument: the entry script of the service.
    pub script: String,
    /// The variables added to the environment of the process, in order.
    pub env: Vec<EnvVar>,
    /// The working directory of the process.
    pub workdir: String,
}

/// Whether `plan` starts the service that lives below `root` on `port`: the
/// node runtime on the entry script, told its port and its root through the
/// environment, with the root as working directory.
pub open spec fn is_spawn_plan(plan: SpawnPlan, root: Seq<char>, port: u16) -> bool {
    &&& plan.program@ == "node"@
    &&& plan.script@ == entry_script_of(root)
    &&& plan.env@.len() == 2
    &&& plan.env@[0].name@ == "PORT"@
    &&& plan.env@[0].value@ == decimal(port as nat)
    &&& plan.env@[1].name@ == "OLDPHOTOS_ROOT"@
    &&& plan.env@[1].value@ == root
    &&& plan.workdir@ == root
}

/// The name of the variable that overrides the working root, and that tells
/// the service its root.
pub fn root_var() -> (name: &'static str)
    ensures
        name@ == "OLDPHOTOS_ROOT"@,
{
    "OLDPHOTOS_ROOT"
}

/// The name of the variable whose presence says that a development server
/// already serves the UI, so that no service is to be started.
pub fn skip_var() -> (name: &'static str)
    ensures
        name@ == "TAURI_DEV_SERVER_RUNNING"@,
{
    "TAURI_DEV_SERVER_RUNNING"
}

/// Plans the start of the service below `root`, listening on `port`.
pub fn spawn_plan(root: &str, port: u16) -> (plan: SpawnPlan)
    ensures
        is_spawn_plan(plan, root@, port),
{
    let mut env: Vec<EnvVar> = Vec::new();
    env.push(EnvVar { name: String::from_str("PORT"), value: decimal_text(port) });
    env.push(EnvVar { name: String::from_str(root_var()), value: String::from_str(root) });
    SpawnPlan {
        program: String::from_str("node"),
        script: entry_script(root),
        env,
        workdir: String::from_str(root),
    }
}

} // verus!
