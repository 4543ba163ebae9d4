//! The launcher's plan: which program to start, with which arguments and
//! environment.

use vstd::prelude::*;
use crate::paths::{join_path, joined, Platform};
use crate::text::{decimal, decimal_text};

verus! {

/// The backend's file name on most platforms.
pub const BACKEND_FILE: &'static str = "invest-log-backend";

/// The backend's file name on Windows.
pub const BACKEND_FILE_WINDOWS: &'static str = "invest-log-backend.exe";

/// The environment variable that carries the data directory.
pub const DATA_DIR_VAR: &'static str = "INVEST_LOG_DATA_DIR";

/// The environment variable that asks the backend to exit when its parent
/// dies.
pub const PARENT_WATCH_VAR: &'static str = "INVEST_LOG_PARENT_WATCH";

/// The text of the fatal error when the backend is missing.
pub const MISSING_BACKEND: &'static str = "Backend not found at: ";

/// The backend's file name on `platform`.
pub open spec fn backend_file_text(platform: Platform) -> Seq<char> {
    if platform == Platform::Windows {
        BACKEND_FILE_WINDOWS@
    } else {
        BACKEND_FILE@
    }
}

/// The name of the text that Rust's `Debug` formatting gives a string: in
/// double quotes, with escapes.
pub uninterp spec fn debug_text(s: Seq<char>) -> Seq<char>;

/// Relies on the `Debug` formatting of `str` (`format!("{:?}", s)`): the
/// text depends on the string alone.
#[verifier::external_body]
fn debug_quoted(s: &str) -> (r: String)
    ensures
        r@ == debug_text(s@),
{
    format!("{:?}", s)
}

/// The backend's arguments.
pub open spec fn launch_args(data_dir: Seq<char>, port: u16) -> Seq<Seq<char>> {
    seq!["--data-dir"@, data_dir, "--port"@, decimal(port as nat)]
}

/// The variables set in the backend's environment.
pub open spec fn launch_env(data_dir: Seq<char>) -> Seq<(Seq<char>, Seq<char>)> {
    seq![(DATA_DIR_VAR@, data_dir), (PARENT_WATCH_VAR@, "1"@)]
}

/// How to start the backend.
pub struct LaunchPlan {
    /// The executable.
    pub program: String,
    /// Its arguments, in order.
    pub args: Vec<String>,
    /// Variables added to its environment, as name and value.
    pub env: Vec<(String, String)>,
}

impl LaunchPlan {
    /// The arguments as text.
    pub open spec fn args_text(&self) -> Seq<Seq<char>> {
        self.args@.map_values(|a: String| a@)
    }

    /// The environment as text.
    pub open spec fn env_text(&self) -> Seq<(Seq<char>, Seq<char>)> {
        self.env@.map_values(|e: (String, String)| (e.0@, e.1@))
    }
}

/// The backend's file name on `platform`.
pub fn backend_file_name(platform: Platform) -> (r: &'static str)
    ensures
        r@ == backend_file_text(platform),
{
    match platform {
        Platform::Windows => BACKEND_FILE_WINDOWS,
        _ => BACKEND_FILE,
    }
}

/// Where the backend lies: next to the application's own executable, in
/// `exe_dir`.
pub fn get_sidecar_path(exe_dir: &str, platform: Platform) -> (r: String)
    ensures
        r@ == joined(platform, exe_dir@, backend_file_text(platform)),
{
    join_path(exe_dir, backend_file_name(platform), platform)
}

/// The fatal error when the backend is missing, given its path as `Debug`
/// writes it.
pub fn missing_backend_message(quoted_path: &str) -> (r: String)
    ensures
        r@ == MISSING_BACKEND@ + quoted_path@,
{
    let mut e = String::from_str(MISSING_BACKEND);
    e.append(quoted_path);
    e
}

/// The plan to start the backend at `sidecar` with `data_dir` and `port`.
/// When no file exists at `sidecar` (`exists` is false), nothing can be
/// started: the result is the fatal error, naming the path in quotes.
pub fn prepare_launch(sidecar: &str, exists: bool, data_dir: &str, port: u16) -> (r: Result<
    LaunchPlan,
    String,
>)
    ensures
        (r is Err) == !exists,
        r matches Err(e) ==> e@ == MISSING_BACKEND@ + debug_text(sidecar@),
        r matches Ok(plan) ==> {
            &&& plan.program@ == sidecar@
            &&& plan.args_text() == launch_args(data_dir@, port)
            &&& plan.env_text() == launch_env(data_dir@)
        },
{
    if !exists {
        let quoted = debug_quoted(sidecar);
        return Err(missing_backend_message(quoted.as_str()));
    }
    let mut args: Vec<String> = Vec::new();
    args.push(String::from_str("--data-dir"));
    args.push(String::from_str(data_dir));
    args.push(String::from_str("--port"));
    args.push(decimal_text(port as u32));
    let mut env: Vec<(String, String)> = Vec::new();
    env.push((String::from_str(DATA_DIR_VAR), String::from_str(data_dir)));
    env.push((String::from_str(PARENT_WATCH_VAR), String::from_str("1")));
    let plan = LaunchPlan { program: String::from_str(sidecar), args, env };
    assert(plan.args_text() =~= launch_args(data_dir@, port));
    assert(plan.env_text() =~= launch_env(data_dir@));
    Ok(plan)
}

} // verus!
