use vstd::prelude::*;
use vstd::string::StringExecFns;
use crate::settings::BuildkiteContextServerSettings;

verus! {

/// The environment variable that hands the API token to the server.
pub const TOKEN_ENV_VAR: &'static str = "BUILDKITE_API_TOKEN";

/// The argument that selects the server's standard-I/O transport.
pub const STDIO_ARG: &'static str = "stdio";

/// How to start the context server process.
pub struct LaunchCommand {
    pub command: String,
    pub args: Vec<String>,
    pub env: Vec<(String, String)>,
}

impl LaunchCommand {
    /// Runs the binary at `path` over standard I/O, with `token` as the
    /// only environment entry.
    pub open spec fn launches(self, path: Seq<char>, token: Seq<char>) -> bool {
        &&& self.command@ == path
        &&& self.args@.len() == 1
        &&& self.args@[0]@ == STDIO_ARG@
        &&& self.env@.len() == 1
        &&& self.env@[0].0@ == TOKEN_ENV_VAR@
        &&& self.env@[0].1@ == token
    }
}

/// Assembles the launch command from the settings and the resolved binary path.
pub fn build_command(settings: &BuildkiteContextServerSettings, binary_path: String) -> (r: LaunchCommand)
    ensures
        r.launches(binary_path@, settings.buildkite_api_token@),
{
    let args = vec![String::from_str(STDIO_ARG)];
    let env = vec![(String::from_str(TOKEN_ENV_VAR), settings.buildkite_api_token.clone())];
    LaunchCommand { command: binary_path, args, env }
}

} // verus!
