//! Configuration failures, kept apart from input validation so that callers
//! can tell "the user typed a bad key" from "the store config on disk is
//! invalid".

use vstd::prelude::*;

use crate::text::{decimal, push_decimal};

verus! {

/// Configuration-specific failures.
#[derive(Debug, Clone, PartialEq, Eq)]
pub enum ConfigError {
    /// A required configuration field was missing.
    MissingField {
        /// Field name as represented in config.
        field: &'static str,
    },
    /// A configuration version is unsupported.
    UnsupportedVersion {
        /// Parsed configuration version.
        version: u32,
    },
    /// The configuration file was malformed.
    Malformed {
        /// Human-readable failure reason.
        reason: &'static str,
    },
    /// The configured project name failed validation.
    InvalidProjectName {
        /// Human-readable failure reason.
        reason: &'static str,
    },
    /// The configured store path failed validation.
    InvalidStorePath {
        /// Human-readable failure reason.
        reason: &'static str,
    },
    /// The configuration file could not be parsed.
    Parse {
        /// Parser-facing or user-facing message.
        message: String,
    },
}

impl ConfigError {
    /// The message this error renders to.
    pub open spec fn spec_message(self) -> Seq<char> {
        match self {
            ConfigError::MissingField { field } =>
                "missing required configuration field: "@ + field@,
            ConfigError::UnsupportedVersion { version } =>
                "unsupported configuration version: "@ + decimal(version as nat),
            ConfigError::Malformed { reason } => "malformed configuration: "@ + reason@,
            ConfigError::InvalidProjectName { reason } => "invalid project name: "@ + reason@,
            ConfigError::InvalidStorePath { reason } => "invalid store path: "@ + reason@,
            ConfigError::Parse { message } => "failed to parse configuration: "@ + message@,
        }
    }

    /// Renders the human-readable message of this error.
    pub fn message(&self) -> (s: String)
        ensures
            s@ == self.spec_message(),
    {
        let mut s = String::new();
        match self {
            ConfigError::MissingField { field } => {
                s.append("missing required configuration field: ");
                s.append(*field);
            },
            ConfigError::UnsupportedVersion { version } => {
                s.append("unsupported configuration version: ");
                push_decimal(&mut s, *version as u64);
            },
            ConfigError::Malformed { reason } => {
                s.append("malformed configuration: ");
                s.append(*reason);
            },
            ConfigError::InvalidProjectName { reason } => {
                s.append("invalid project name: ");
                s.append(*reason);
            },
            ConfigError::InvalidStorePath { reason } => {
                s.append("invalid store path: ");
                s.append(*reason);
            },
            ConfigError::Parse { message } => {
                s.append("failed to parse configuration: ");
                s.append(message.as_str());
            },
        }
        s
    }
}

} // verus!
