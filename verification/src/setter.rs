use vstd::prelude::*;
use vstd::string::*;
use crate::errors::{ErrorKind, SetStep};

verus! {

/// What spawning one daemon process and waiting for it yielded, as the
/// unverified shell reports it: either the process could not be started at
/// all (the text is the operating system's error text), or it ran to
/// completion and its exit status did or did not report success.
#[derive(Debug)]
pub enum SpawnOutcome {
    LaunchFailed(String),
    Exited(bool),
}

/// What the `init` invocation's outcome means for the operation: only a
/// failure to launch the process is an error. A non-zero exit is deliberately
/// swallowed, because the daemon may legitimately already be running.
pub open spec fn init_decision(o: SpawnOutcome) -> Result<(), ErrorKind> {
    match o {
        SpawnOutcome::LaunchFailed(m) => Err(ErrorKind::ProcessLaunchFailed(SetStep::Init, m)),
        SpawnOutcome::Exited(_) => Ok(()),
    }
}

/// Decides the `init` step: continue unless the process could not be started.
pub fn init_step(o: SpawnOutcome) -> (r: Result<(), ErrorKind>)
    ensures
        r == init_decision(o),
{
    match o {
        SpawnOutcome::LaunchFailed(m) => Err(ErrorKind::ProcessLaunchFailed(SetStep::Init, m)),
        SpawnOutcome::Exited(_) => Ok(()),
    }
}

/// What the `img` invocation's outcome means for the operation: its exit
/// status is authoritative. A launch failure or a non-zero exit fails the
/// whole operation; a successful exit completes it.
pub open spec fn img_decision(o: SpawnOutcome) -> Result<(), ErrorKind> {
    match o {
        SpawnOutcome::LaunchFailed(m) => Err(ErrorKind::ProcessLaunchFailed(SetStep::Img, m)),
        SpawnOutcome::Exited(true) => Ok(()),
        SpawnOutcome::Exited(false) => Err(ErrorKind::ToolReportedFailure),
    }
}

/// Decides the `img` step: the operation succeeds exactly when the process
/// started and exited successfully.
pub fn img_step(o: SpawnOutcome) -> (r: Result<(), ErrorKind>)
    ensures
        r == img_decision(o),
{
    match o {
        SpawnOutcome::LaunchFailed(m) => Err(ErrorKind::ProcessLaunchFailed(SetStep::Img, m)),
        SpawnOutcome::Exited(true) => Ok(()),
        SpawnOutcome::Exited(false) => Err(ErrorKind::ToolReportedFailure),
    }
}

/// The name of the external wallpaper daemon's command-line tool.
pub fn tool_name() -> (r: String)
    ensures
        r@ == "swww"@,
{
    String::from_str("swww")
}

/// The arguments of the `init` invocation.
pub open spec fn init_argv() -> Seq<Seq<char>> {
    seq!["init"@]
}

/// Builds the argument list of the `init` invocation: the bare `init`
/// subcommand.
pub fn init_args() -> (r: Vec<String>)
    ensures
        r@.map_values(|s: String| s@) == init_argv(),
{
    let mut r: Vec<String> = Vec::new();
    r.push(String::from_str("init"));
    proof {
        assert(r@.map_values(|s: String| s@) =~= init_argv());
    }
    r
}

/// The arguments of the `img` invocation: the target path followed by the
/// fixed transition configuration (style `any`, step `90`, duration `2`
/// seconds) rendered as command-line flags.
pub open spec fn img_argv(path: Seq<char>) -> Seq<Seq<char>> {
    seq![
        "img"@,
        path,
        "--transition-type"@,
        "any"@,
        "--transition-step"@,
        "90"@,
        "--transition-duration"@,
        "2"@,
    ]
}

/// Builds the argument list of the `img` invocation for `path`.
pub fn img_args(path: &str) -> (r: Vec<String>)
    ensures
        r@.map_values(|s: String| s@) == img_argv(path@),
{
    let mut r: Vec<String> = Vec::new();
    r.push(String::from_str("img"));
    r.push(String::from_str(path));
    r.push(String::from_str("--transition-type"));
    r.push(String::from_str("any"));
    r.push(String::from_str("--transition-step"));
    r.push(String::from_str("90"));
    r.push(String::from_str("--transition-duration"));
    r.push(String::from_str("2"));
    proof {
        assert(r@.map_values(|s: String| s@) =~= img_argv(path@));
    }
    r
}

} // verus!
