use vstd::prelude::*;

use crate::text::{decimal, local_host, push_decimal};

verus! {

/// Where the executable lies under the resource directory.
pub const EXECUTABLE_SUBPATH: &'static str = "node/node.exe";

/// Where the entry script lies under the resource directory.
pub const SCRIPT_SUBPATH: &'static str = "server/server.js";

/// The subdirectory that some bundles put their resources under.
pub const RESOURCES_PREFIX: &'static str = "resources";

/// The entry script's file name, passed relative to its own directory.
pub const SCRIPT_NAME: &'static str = "server.js";

/// The data file of the server, under the application data directory.
pub const DATABASE_FILE: &'static str = "stacklume.db";

/// The application log, under the application data directory.
pub const APP_LOG_FILE: &'static str = "stacklume.log";

/// The captured server output, under the application data directory.
pub const SERVER_LOG_FILE: &'static str = "server.log";

/// The path handed to the server as its data file: the real one where it could be put
/// as text, else the bare file name.
pub open spec fn database_arg(database_path: Option<Seq<char>>) -> Seq<char> {
    match database_path {
        Some(p) => p,
        None => DATABASE_FILE@,
    }
}

/// The environment the server is launched with: its port, the host to bind, the desktop
/// flag, its data file and the runtime mode.
pub open spec fn environment_spec(port: u16, database_path: Option<Seq<char>>) -> Seq<
    (Seq<char>, Seq<char>),
> {
    seq![
        ("PORT"@, decimal(port as nat)),
        ("HOSTNAME"@, local_host()),
        ("DESKTOP_MODE"@, "true"@),
        ("DATABASE_PATH"@, database_arg(database_path)),
        ("NODE_ENV"@, "production"@),
    ]
}

/// The text of an optional string.
pub open spec fn opt_text(s: Option<String>) -> Option<Seq<char>> {
    match s {
        Some(t) => Some(t@),
        None => None,
    }
}

/// The text of each variable of an environment.
pub open spec fn env_view(env: Seq<(String, String)>) -> Seq<(Seq<char>, Seq<char>)> {
    env.map_values(|kv: (String, String)| (kv.0@, kv.1@))
}

/// Picks where a bundled resource is: directly under the resource directory, else under
/// its `resources` subdirectory, else the direct path, whose absence is reported later.
pub fn resolve_resource<P>(direct: P, direct_exists: bool, with_prefix: P, prefixed_exists: bool) -> (r: P)
    ensures
        r == (if direct_exists || !prefixed_exists {
            direct
        } else {
            with_prefix
        }),
{
    if direct_exists {
        direct
    } else if prefixed_exists {
        with_prefix
    } else {
        direct
    }
}

fn pair(k: &str, v: String) -> (r: (String, String))
    ensures
        r.0@ == k@,
        r.1@ == v@,
{
    (String::from_str(k), v)
}

/// The environment variables the server is launched with, in order.
pub fn child_environment(port: u16, database_path: Option<String>) -> (r: Vec<(String, String)>)
    ensures
        env_view(r@) == environment_spec(port, opt_text(database_path)),
{
    let ghost dbv = opt_text(database_path);
    let mut port_text = String::new();
    push_decimal(&mut port_text, port as u32);
    let db = match database_path {
        Some(p) => p,
        None => String::from_str(DATABASE_FILE),
    };
    let mut env: Vec<(String, String)> = Vec::new();
    env.push(pair("PORT", port_text));
    env.push(pair("HOSTNAME", String::from_str("127.0.0.1")));
    env.push(pair("DESKTOP_MODE", String::from_str("true")));
    env.push(pair("DATABASE_PATH", db));
    env.push(pair("NODE_ENV", String::from_str("production")));
    assert(port_text@ =~= decimal(port as nat));
    assert(env_view(env@) =~= environment_spec(port, dbv));
    env
}

/// How the window answers a request to toggle maximisation.
#[derive(Clone, Copy, Debug, PartialEq, Eq, Structural)]
pub enum WindowCommand {
    Maximize,
    Unmaximize,
}

/// A maximised window is restored; any other is maximised. An unknown state counts as
/// not maximised.
pub fn toggle_maximize(is_maximized: Option<bool>) -> (r: WindowCommand)
    ensures
        r == (if is_maximized == Some(true) {
            WindowCommand::Unmaximize
        } else {
            WindowCommand::Maximize
        }),
{
    match is_maximized {
        Some(true) => WindowCommand::Unmaximize,
        _ => WindowCommand::Maximize,
    }
}

} // verus!
