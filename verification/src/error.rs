//! The failure taxonomy of the generation engine.

use vstd::prelude::*;
use vstd::string::StringExecFns;

use crate::text::decimal_of;
use crate::text::decimal_string;

verus! {

/// Everything a generation attempt can fail with.  Nothing is retried and no
/// fallback artifact is ever substituted: each of these is terminal for its
/// `generate` call and is surfaced to the caller.
#[derive(Debug, Clone)]
pub enum GenerationError {
    /// The requested interpreter version is outside the fixed supported set.
    UnsupportedVersion { major: u8, minor: u8 },
    /// The architecture and environment-ABI combination has no toolchain
    /// mapping.
    UnsupportedTarget { arch: String, env: String },
    /// The resolved external utility could not be started; carries the
    /// attempted command line and the underlying failure text.
    ToolInvocationFailed { command: String, detail: String },
    /// The external utility ran but exited with a failing status; carries the
    /// attempted command line and the status text.
    ToolExitedWithFailure { command: String, detail: String },
}

/// The mathematical shadow of `GenerationError`: the same variants over
/// character sequences.
#[verifier::ext_equal]
pub enum ErrorModel {
    UnsupportedVersion { major: u8, minor: u8 },
    UnsupportedTarget { arch: Seq<char>, env: Seq<char> },
    ToolInvocationFailed { command: Seq<char>, detail: Seq<char> },
    ToolExitedWithFailure { command: Seq<char>, detail: Seq<char> },
}

impl View for GenerationError {
    type V = ErrorModel;

    open spec fn view(&self) -> ErrorModel {
        match self {
            GenerationError::UnsupportedVersion { major, minor } => ErrorModel::UnsupportedVersion {
                major: *major,
                minor: *minor,
            },
            GenerationError::UnsupportedTarget { arch, env } => ErrorModel::UnsupportedTarget {
                arch: arch@,
                env: env@,
            },
            GenerationError::ToolInvocationFailed { command, detail } => ErrorModel::ToolInvocationFailed {
                command: command@,
                detail: detail@,
            },
            GenerationError::ToolExitedWithFailure { command, detail } => ErrorModel::ToolExitedWithFailure {
                command: command@,
                detail: detail@,
            },
        }
    }
}

/// The human-readable message of each error.  The two tool errors lead with
/// the full attempted command line for diagnosability.
pub open spec fn spec_message(e: ErrorModel) -> Seq<char> {
    match e {
        ErrorModel::UnsupportedVersion { major, minor } => "Unsupported Python version "@
            + decimal_of(major as nat) + "."@ + decimal_of(minor as nat),
        ErrorModel::UnsupportedTarget { arch, env } => "Unsupported target arch '"@ + arch
            + "' or env ABI '"@ + env + "'"@,
        ErrorModel::ToolInvocationFailed { command, detail } => command + " failed with "@
            + detail,
        ErrorModel::ToolExitedWithFailure { command, detail } => command + " failed with "@
            + detail,
    }
}

impl GenerationError {
    /// Renders the error as a diagnostic line.
    pub fn message(&self) -> (r: String)
        ensures
            r@ == spec_message(self@),
    {
        match self {
            GenerationError::UnsupportedVersion { major, minor } => {
                let mut s = "Unsupported Python version ".to_owned();
                s.append(decimal_string(*major).as_str());
                s.append(".");
                s.append(decimal_string(*minor).as_str());
                s
            },
            GenerationError::UnsupportedTarget { arch, env } => {
                let mut s = "Unsupported target arch '".to_owned();
                s.append(arch.as_str());
                s.append("' or env ABI '");
                s.append(env.as_str());
                s.append("'");
                s
            },
            GenerationError::ToolInvocationFailed { command, detail } => {
                let mut s = command.clone();
                s.append(" failed with ");
                s.append(detail.as_str());
                s
            },
            GenerationError::ToolExitedWithFailure { command, detail } => {
                let mut s = command.clone();
                s.append(" failed with ");
                s.append(detail.as_str());
                s
            },
        }
    }
}

} // verus!
