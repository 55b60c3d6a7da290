use crate::text::{decimal, push_decimal};
use vstd::prelude::*;

verus! {

/// How the local server process is started.
pub enum LaunchStrategy {
    /// Run the bundled server executable directly, through the platform's
    /// sidecar mechanism.
    Sidecar,
    /// Run the server executable at `path` through the user's login shell, so
    /// that the user's shell configuration applies.
    LoginShell { shell: String, path: String },
}

/// A program to run, with its arguments and extra environment variables.
pub struct LaunchPlan {
    pub program: String,
    pub args: Vec<String>,
    pub env: Vec<(String, String)>,
}

/// The name under which the bundled server executable is known.
pub open spec fn sidecar_name() -> Seq<char> {
    "opencode-cli"@
}

/// The argument that hands the server its port.
pub open spec fn port_arg_of(port: u32) -> Seq<char> {
    "--port="@ + decimal(port as nat)
}

/// The command line that a login shell runs to start the server at `path`.
pub open spec fn shell_command_of(path: Seq<char>, port: u32) -> Seq<char> {
    "\""@ + path + "\" serve "@ + port_arg_of(port)
}

/// The shell to run commands in: the one the environment names, else `/bin/sh`.
pub open spec fn shell_of(from_env: Option<Seq<char>>) -> Seq<char> {
    match from_env {
        Some(s) => s,
        None => "/bin/sh"@,
    }
}

/// The shell to run commands in: `from_env` (the `SHELL` setting) when present,
/// else `/bin/sh`.
pub fn user_shell(from_env: Option<String>) -> (r: String)
    ensures
        r@ == shell_of(
            match from_env {
                Some(s) => Some(s@),
                None => None,
            },
        ),
{
    match from_env {
        Some(s) => s,
        None => String::from_str("/bin/sh"),
    }
}

/// The argument that hands the server its port: `--port=<port>`.
pub fn port_arg(port: u32) -> (r: String)
    ensures
        r@ == port_arg_of(port),
{
    let mut r = String::from_str("--port=");
    push_decimal(&mut r, port);
    r
}

/// The command line `"<path>" serve --port=<port>` for a login shell.
pub fn shell_command(path: &str, port: u32) -> (r: String)
    ensures
        r@ == shell_command_of(path@, port),
{
    let mut r = String::from_str("\"");
    r.append(path);
    r.append("\" serve ");
    let p = port_arg(port);
    r.append(p.as_str());
    assert(r@ =~= shell_command_of(path@, port));
    r
}

/// The environment of the server: client identity, icon discovery, and a state
/// directory of its own.
pub fn server_env(state_dir: &str) -> (r: Vec<(String, String)>)
    ensures
        r@.len() == 3,
        r@[0].0@ == "OPENCODE_EXPERIMENTAL_ICON_DISCOVERY"@ && r@[0].1@ == "true"@,
        r@[1].0@ == "OPENCODE_CLIENT"@ && r@[1].1@ == "desktop"@,
        r@[2].0@ == "XDG_STATE_HOME"@ && r@[2].1@ == state_dir@,
{
    let mut r: Vec<(String, String)> = Vec::new();
    r.push(
        (String::from_str("OPENCODE_EXPERIMENTAL_ICON_DISCOVERY"), String::from_str("true")),
    );
    r.push((String::from_str("OPENCODE_CLIENT"), String::from_str("desktop")));
    r.push((String::from_str("XDG_STATE_HOME"), String::from_str(state_dir)));
    r
}

/// How to start the server on `port` with `state_dir` as its state directory.
pub fn launch_plan(strategy: LaunchStrategy, state_dir: &str, port: u32) -> (r: LaunchPlan)
    ensures
        r.env@.len() == 3,
        r.env@[0].0@ == "OPENCODE_EXPERIMENTAL_ICON_DISCOVERY"@ && r.env@[0].1@ == "true"@,
        r.env@[1].0@ == "OPENCODE_CLIENT"@ && r.env@[1].1@ == "desktop"@,
        r.env@[2].0@ == "XDG_STATE_HOME"@ && r.env@[2].1@ == state_dir@,
        match strategy {
            LaunchStrategy::Sidecar => {
                &&& r.program@ == sidecar_name()
                &&& r.args@.len() == 2
                &&& r.args@[0]@ == "serve"@
                &&& r.args@[1]@ == port_arg_of(port)
            },
            LaunchStrategy::LoginShell { shell, path } => {
                &&& r.program@ == shell@
                &&& r.args@.len() == 3
                &&& r.args@[0]@ == "-il"@
                &&& r.args@[1]@ == "-c"@
                &&& r.args@[2]@ == shell_command_of(path@, port)
            },
        },
{
    let env = server_env(state_dir);
    match strategy {
        LaunchStrategy::Sidecar => {
            let mut args: Vec<String> = Vec::new();
            args.push(String::from_str("serve"));
            args.push(port_arg(port));
            LaunchPlan { program: String::from_str("opencode-cli"), args, env }
        },
        LaunchStrategy::LoginShell { shell, path } => {
            let mut args: Vec<String> = Vec::new();
            args.push(String::from_str("-il"));
            args.push(String::from_str("-c"));
            args.push(shell_command(path.as_str(), port));
            LaunchPlan { program: shell, args, env }
        },
    }
}

} // verus!
