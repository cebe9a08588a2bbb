//! Detection errors.
use vstd::prelude::*;

use crate::text::{concat2, concat3, decimal, i32_to_decimal, signed_decimal, u64_to_decimal};

verus! {

/// Why probing a file for its audio streams failed.
#[derive(Debug, Clone)]
pub enum DetectionError {
    FfprobeUnavailable,
    FfprobeSpawn { path: String, message: String },
    FfprobeTimeout { path: String, timeout_ms: u64 },
    FfprobeExit { path: String, status: i32, stderr: String },
    FfprobeParse { path: String, message: String },
}

impl DetectionError {
    /// What the error says.
    pub open spec fn spec_message(&self) -> Seq<char> {
        match self {
            DetectionError::FfprobeUnavailable => "ffprobe binary not available on this host"@,
            DetectionError::FfprobeSpawn { path, message } => "ffprobe spawn failed for `"@ + path@ + "`: "@
                + message@,
            DetectionError::FfprobeTimeout { path, timeout_ms } => "ffprobe timed out after "@
                + decimal(*timeout_ms as nat) + "ms probing `"@ + path@ + "`"@,
            DetectionError::FfprobeExit { path, status, stderr } => "ffprobe exited with status "@
                + signed_decimal(*status as int) + " probing `"@ + path@ + "`: "@ + stderr@,
            DetectionError::FfprobeParse { path, message } => "failed to parse ffprobe JSON output for `"@
                + path@ + "`: "@ + message@,
        }
    }

    /// Human-readable description.
    pub fn message(&self) -> (r: String)
        ensures
            r@ == self.spec_message(),
    {
        match self {
            DetectionError::FfprobeUnavailable => String::from_str("ffprobe binary not available on this host"),
            DetectionError::FfprobeSpawn { path, message } => {
                let head = concat3("ffprobe spawn failed for `", path.as_str(), "`: ");
                concat2(head.as_str(), message.as_str())
            },
            DetectionError::FfprobeTimeout { path, timeout_ms } => {
                let ms = u64_to_decimal(*timeout_ms);
                let head = concat3("ffprobe timed out after ", ms.as_str(), "ms probing `");
                concat3(head.as_str(), path.as_str(), "`")
            },
            DetectionError::FfprobeExit { path, status, stderr } => {
                let st = i32_to_decimal(*status);
                let head = concat3("ffprobe exited with status ", st.as_str(), " probing `");
                let mid = concat3(head.as_str(), path.as_str(), "`: ");
                concat2(mid.as_str(), stderr.as_str())
            },
            DetectionError::FfprobeParse { path, message } => {
                let head = concat3("failed to parse ffprobe JSON output for `", path.as_str(), "`: ");
                concat2(head.as_str(), message.as_str())
            },
        }
    }
}

} // verus!
