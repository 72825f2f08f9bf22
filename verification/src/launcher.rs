//! Launch policy for the backend server process.
//!
//! The backend is started with a fixed interpreter, a fixed argument vector
//! and a fixed relative working directory; nothing about the command line is
//! configurable at run time. The policy is pure: the host performs the actual
//! spawn from the plan built here.

use vstd::prelude::*;

verus! {

/// Operating-system family the host runs on; it decides the interpreter name.
#[derive(Clone, Copy, PartialEq, Eq, Structural, Debug)]
pub enum OsFamily {
    Windows,
    Unix,
}

/// Build mode of the host application; it decides the backend's working
/// directory relative to the executable.
#[derive(Clone, Copy, PartialEq, Eq, Structural, Debug)]
pub enum BuildMode {
    Development,
    Release,
}

/// The OS could not create the backend process; carries the OS error text.
#[derive(Clone, PartialEq, Eq, Debug)]
pub struct LaunchError {
    pub message: String,
}

/// Interpreter name chosen for each OS family.
pub open spec fn spec_interpreter(os: OsFamily) -> Seq<char> {
    match os {
        OsFamily::Windows => "python"@,
        OsFamily::Unix => "python3"@,
    }
}

/// Working directory chosen for each build mode.
pub open spec fn spec_working_dir(mode: BuildMode) -> Seq<char> {
    match mode {
        BuildMode::Development => "../../sentinel-core"@,
        BuildMode::Release => "../sentinel-core"@,
    }
}

/// The fixed argument vector handed to the interpreter: module runner, server
/// entry point, bind host and port, and log verbosity.
pub open spec fn args_match(args: Seq<&str>) -> bool {
    &&& args.len() == 9
    &&& args[0]@ == "-m"@
    &&& args[1]@ == "uvicorn"@
    &&& args[2]@ == "sentinel_core.api.main:app"@
    &&& args[3]@ == "--host"@
    &&& args[4]@ == "127.0.0.1"@
    &&& args[5]@ == "--port"@
    &&& args[6]@ == "8000"@
    &&& args[7]@ == "--log-level"@
    &&& args[8]@ == "info"@
}

/// Everything the host needs to spawn the backend process.
pub struct LaunchPlan {
    pub program: &'static str,
    pub args: Vec<&'static str>,
    pub working_dir: &'static str,
}

/// Interpreter executable name for the given OS family.
pub fn interpreter_name(os: OsFamily) -> (r: &'static str)
    ensures
        r@ == spec_interpreter(os),
{
    match os {
        OsFamily::Windows => "python",
        OsFamily::Unix => "python3",
    }
}

/// Backend working directory for the given build mode.
pub fn working_dir(mode: BuildMode) -> (r: &'static str)
    ensures
        r@ == spec_working_dir(mode),
{
    match mode {
        BuildMode::Development => "../../sentinel-core",
        BuildMode::Release => "../sentinel-core",
    }
}

/// The fixed argument vector for the backend interpreter.
pub fn backend_args() -> (r: Vec<&'static str>)
    ensures
        args_match(r@),
{
    let mut v: Vec<&'static str> = Vec::new();
    v.push("-m");
    v.push("uvicorn");
    v.push("sentinel_core.api.main:app");
    v.push("--host");
    v.push("127.0.0.1");
    v.push("--port");
    v.push("8000");
    v.push("--log-level");
    v.push("info");
    v
}

/// Builds the complete spawn plan for the given OS family and build mode.
pub fn launch_plan(os: OsFamily, mode: BuildMode) -> (r: LaunchPlan)
    ensures
        r.program@ == spec_interpreter(os),
        args_match(r.args@),
        r.working_dir@ == spec_working_dir(mode),
{
    LaunchPlan {
        program: interpreter_name(os),
        args: backend_args(),
        working_dir: working_dir(mode),
    }
}

} // verus!
