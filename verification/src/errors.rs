//! Tagged failure taxonomy for the provisioning pipeline: every failure
//! carries its category and enough context to act on.

use vstd::prelude::*;

verus! {

/// A pipeline failure, by category.
#[derive(Clone, Debug, PartialEq, Eq)]
pub enum InstallError {
    /// An external tool could not be started at all.
    Launch { tool: String, detail: String },
    /// An external tool ran and reported failure.
    ToolFailed { tool: String, detail: String },
    /// Output of an external tool could not be parsed.
    Parse { what: String, detail: String },
    /// A stage-local verification found the observed state wrong.
    Verify { what: String, detail: String },
    /// An expected effect did not become observable within its settle window.
    Timeout { what: String },
    /// A file or directory operation on a mounted tree failed.
    Fs { path: String, detail: String },
}

impl InstallError {
    /// An equal copy of the failure.
    pub fn duplicate(&self) -> (r: InstallError)
        ensures
            r == *self,
    {
        match self {
            InstallError::Launch { tool, detail } => InstallError::Launch {
                tool: tool.clone(),
                detail: detail.clone(),
            },
            InstallError::ToolFailed { tool, detail } => InstallError::ToolFailed {
                tool: tool.clone(),
                detail: detail.clone(),
            },
            InstallError::Parse { what, detail } => InstallError::Parse {
                what: what.clone(),
                detail: detail.clone(),
            },
            InstallError::Verify { what, detail } => InstallError::Verify {
                what: what.clone(),
                detail: detail.clone(),
            },
            InstallError::Timeout { what } => InstallError::Timeout { what: what.clone() },
            InstallError::Fs { path, detail } => InstallError::Fs {
                path: path.clone(),
                detail: detail.clone(),
            },
        }
    }

    /// A one-line description of the failure.
    pub fn message(&self) -> (r: String)
        ensures
            match self {
                InstallError::Launch { tool, detail } => r@ == "failed to launch "@ + tool@
                    + ": "@ + detail@,
                InstallError::ToolFailed { tool, detail } => r@ == "tool reported failure: "@
                    + tool@ + ": "@ + detail@,
                InstallError::Parse { what, detail } => r@ == "could not parse "@ + what@ + ": "@
                    + detail@,
                InstallError::Verify { what, detail } => r@ == "verification failed: "@ + what@
                    + ": "@ + detail@,
                InstallError::Timeout { what } => r@ == "timed out waiting for "@ + what@,
                InstallError::Fs { path, detail } => r@ == "filesystem operation failed: "@
                    + path@ + ": "@ + detail@,
            },
    {
        match self {
            InstallError::Launch { tool, detail } => String::from_str("failed to launch ").concat(
                tool.as_str(),
            ).concat(": ").concat(detail.as_str()),
            InstallError::ToolFailed { tool, detail } => String::from_str(
                "tool reported failure: ",
            ).concat(tool.as_str()).concat(": ").concat(detail.as_str()),
            InstallError::Parse { what, detail } => String::from_str("could not parse ").concat(
                what.as_str(),
            ).concat(": ").concat(detail.as_str()),
            InstallError::Verify { what, detail } => String::from_str(
                "verification failed: ",
            ).concat(what.as_str()).concat(": ").concat(detail.as_str()),
            InstallError::Timeout { what } => String::from_str("timed out waiting for ").concat(
                what.as_str(),
            ),
            InstallError::Fs { path, detail } => String::from_str(
                "filesystem operation failed: ",
            ).concat(path.as_str()).concat(": ").concat(detail.as_str()),
        }
    }
}

} // verus!
