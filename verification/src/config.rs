//! The configuration: where each compiler is, and the arguments it is given.

use crate::paths::PathKind;
use vstd::prelude::*;
use vstd::string::*;

verus! {

/// Why no configuration could be had.
#[derive(Clone, Debug, PartialEq, Eq)]
pub enum ConfigError {
    /// The file could not be read; the text says why.
    FileRead(String),
    /// The file is not a configuration; the text says why.
    Parse(String),
    /// The configuration names something that is not there.
    Validation(String),
}

impl ConfigError {
    /// The message of this error.
    pub open spec fn spec_message(self) -> Seq<char> {
        match self {
            ConfigError::FileRead(detail) => "Failed to read config file: "@ + detail@,
            ConfigError::Parse(detail) => "Failed to parse config file: "@ + detail@,
            ConfigError::Validation(detail) => "Invalid configuration: "@ + detail@,
        }
    }

    /// The message of this error.
    pub fn message(&self) -> (text: String)
        ensures
            text@ == self.spec_message(),
    {
        match self {
            ConfigError::FileRead(detail) => {
                let mut text = String::from_str("Failed to read config file: ");
                text.append(detail.as_str());
                text
            },
            ConfigError::Parse(detail) => {
                let mut text = String::from_str("Failed to parse config file: ");
                text.append(detail.as_str());
                text
            },
            ConfigError::Validation(detail) => {
                let mut text = String::from_str("Invalid configuration: ");
                text.append(detail.as_str());
                text
            },
        }
    }
}

/// Where rustc is, and its arguments.
#[derive(Clone, Debug, PartialEq, Eq)]
pub struct RustcConfig {
    pub path: String,
    pub args: Vec<String>,
}

/// Where gccrs is, and its arguments.
#[derive(Clone, Debug, PartialEq, Eq)]
pub struct GccrsConfig {
    pub path: String,
    pub args: Vec<String>,
}

/// The whole configuration.
#[derive(Clone, Debug, PartialEq, Eq)]
pub struct AppConfig {
    pub rustc: RustcConfig,
    pub gccrs: GccrsConfig,
}

/// What validation says of a configuration, given what was found at the two
/// compilers' paths: the first compiler that is missing, rustc before gccrs.
pub open spec fn validation_failure(
    config: AppConfig,
    rustc_found: PathKind,
    gccrs_found: PathKind,
) -> Option<Seq<char>> {
    if rustc_found == PathKind::Missing {
        Some("Rustc path does not exist: "@ + config.rustc.path@)
    } else if gccrs_found == PathKind::Missing {
        Some("GCCRS path does not exist: "@ + config.gccrs.path@)
    } else {
        None
    }
}

impl AppConfig {
    /// Checks that both compilers are there, given what was found at their
    /// paths.
    pub fn validate(&self, rustc_found: PathKind, gccrs_found: PathKind) -> (outcome: Result<
        (),
        ConfigError,
    >)
        ensures
            match validation_failure(*self, rustc_found, gccrs_found) {
                None => outcome is Ok,
                Some(detail) => outcome is Err && outcome->Err_0 is Validation
                    && outcome->Err_0->Validation_0@ == detail,
            },
    {
        if !rustc_found.is_present() {
            let mut detail = String::from_str("Rustc path does not exist: ");
            detail.append(self.rustc.path.as_str());
            return Err(ConfigError::Validation(detail));
        }
        if !gccrs_found.is_present() {
            let mut detail = String::from_str("GCCRS path does not exist: ");
            detail.append(self.gccrs.path.as_str());
            return Err(ConfigError::Validation(detail));
        }
        Ok(())
    }
}

} // verus!
