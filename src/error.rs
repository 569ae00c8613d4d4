use vstd::prelude::*;
use vstd::string::StringExecFns;

verus! {

/// Why provisioning or launching the context server failed.
#[derive(Debug)]
pub enum ExtensionError {
    /// The project has no settings block for the context server.
    SettingsMissing(String),
    /// The settings block is present but does not have the expected shape.
    SettingsParseError(String),
    /// A file-system operation failed.
    IoError(String),
    /// The editor refused a platform operation (such as marking a file executable).
    PlatformApiError(String),
    /// No release asset carries the expected name.
    AssetNotFound(String),
    /// The host platform has no entry in the asset naming table.
    UnsupportedPlatform(String),
    /// The release index had no qualifying release for the repository (repository, cause).
    ReleaseNotFound(String, String),
    /// Downloading the asset failed (URL, cause).
    DownloadFailed(String, String),
    /// An event arrived that the current resolution phase does not expect.
    InternalError(String),
}

/// The text that introduces the message of each kind of error.
pub open spec fn error_prefix(e: ExtensionError) -> Seq<char> {
    match e {
        ExtensionError::SettingsMissing(_) => "Project or settings missing: "@,
        ExtensionError::SettingsParseError(_) => "Settings parse error: "@,
        ExtensionError::IoError(_) => "IO error: "@,
        ExtensionError::PlatformApiError(_) => "Zed API error: "@,
        ExtensionError::AssetNotFound(_) => "Asset not found: "@,
        ExtensionError::UnsupportedPlatform(_) => "Unsupported platform: "@,
        ExtensionError::ReleaseNotFound(_, _) => "Release not found for repo: "@,
        ExtensionError::DownloadFailed(_, _) => "Download failed for URL: "@,
        ExtensionError::InternalError(_) => "Internal error: "@,
    }
}

/// The human-readable message of an error.
pub open spec fn error_message(e: ExtensionError) -> Seq<char> {
    match e {
        ExtensionError::SettingsMissing(m) => error_prefix(e) + m@,
        ExtensionError::SettingsParseError(m) => error_prefix(e) + m@,
        ExtensionError::IoError(m) => error_prefix(e) + m@,
        ExtensionError::PlatformApiError(m) => error_prefix(e) + m@,
        ExtensionError::AssetNotFound(m) => error_prefix(e) + m@,
        ExtensionError::UnsupportedPlatform(m) => error_prefix(e) + m@,
        ExtensionError::ReleaseNotFound(repo, cause) => error_prefix(e) + repo@ + ": "@ + cause@,
        ExtensionError::DownloadFailed(url, cause) => error_prefix(e) + url@ + ": "@ + cause@,
        ExtensionError::InternalError(m) => error_prefix(e) + m@,
    }
}

impl ExtensionError {
    /// Renders the error for display to the user.
    pub fn message(&self) -> (r: String)
        ensures
            r@ == error_message(*self),
    {
        match self {
            ExtensionError::SettingsMissing(m) => String::from_str("Project or settings missing: ").concat(m.as_str()),
            ExtensionError::SettingsParseError(m) => String::from_str("Settings parse error: ").concat(m.as_str()),
            ExtensionError::IoError(m) => String::from_str("IO error: ").concat(m.as_str()),
            ExtensionError::PlatformApiError(m) => String::from_str("Zed API error: ").concat(m.as_str()),
            ExtensionError::AssetNotFound(m) => String::from_str("Asset not found: ").concat(m.as_str()),
            ExtensionError::UnsupportedPlatform(m) => String::from_str("Unsupported platform: ").concat(m.as_str()),
            ExtensionError::ReleaseNotFound(repo, cause) => {
                String::from_str("Release not found for repo: ").concat(repo.as_str()).concat(": ").concat(cause.as_str())
            },
            ExtensionError::DownloadFailed(url, cause) => {
                String::from_str("Download failed for URL: ").concat(url.as_str()).concat(": ").concat(cause.as_str())
            },
            ExtensionError::InternalError(m) => String::from_str("Internal error: ").concat(m.as_str()),
        }
    }
}

} // verus!
