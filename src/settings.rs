use vstd::prelude::*;
use vstd::string::StringExecFns;
use crate::error::ExtensionError;

verus! {

/// The key under which the editor keeps this context server's settings.
pub const SETTINGS_KEY: &'static str = "mcp-server-buildkite";

/// The settings of the context server, once decoded.
pub struct BuildkiteContextServerSettings {
    pub buildkite_api_token: String,
}

/// Turns what the settings provider produced into settings or an error:
/// `None` when the project has no settings block, `Some(Err(cause))` when
/// the block did not decode, `Some(Ok(s))` when it did.
pub fn settings_from_lookup(block: Option<Result<BuildkiteContextServerSettings, String>>) -> (r: Result<
    BuildkiteContextServerSettings,
    ExtensionError,
>)
    ensures
        match block {
            None => r matches Err(ExtensionError::SettingsMissing(_)),
            Some(Err(cause)) => r matches Err(ExtensionError::SettingsParseError(c)) && c@ == cause@,
            Some(Ok(s)) => r matches Ok(t) && t.buildkite_api_token@ == s.buildkite_api_token@,
        },
{
    match block {
        None => Err(
            ExtensionError::SettingsMissing(
                String::from_str(
                    "Buildkite API token is not configured. Please set it in the extension settings (mcp-server-buildkite).",
                ),
            ),
        ),
        Some(Err(cause)) => Err(ExtensionError::SettingsParseError(cause)),
        Some(Ok(s)) => Ok(s),
    }
}

} // verus!
