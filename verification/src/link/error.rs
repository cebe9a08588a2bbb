//! Link manager errors.
use vstd::prelude::*;

use crate::text::{concat2, concat3, quote, quoted};

verus! {

/// The kind of an I/O failure, as far as the link rules distinguish them.
#[derive(Debug, Clone, Copy, PartialEq, Eq, Structural)]
pub enum IoErrorKind {
    NotFound,
    PermissionDenied,
    Other,
}

#[derive(Debug, Clone)]
pub enum LinkError {
    NotFound(String),
    PermissionDenied(String),
    AlreadyExists { from: String, target: String },
    CrossFilesystem { from: String, target: String },
    ExpectedDirectory { path: String },
    ExpectedFile { path: String },
    InvalidRelativePath(String),
    Io { path: String, message: String },
}

impl LinkError {
    /// Classify an I/O failure on `path`: not-found and permission errors
    /// get their own variants, everything else is `Io`.
    pub fn from_io(path: String, kind: IoErrorKind, message: String) -> (r: Self)
        ensures
            match kind {
                IoErrorKind::NotFound => r == LinkError::NotFound(path),
                IoErrorKind::PermissionDenied => r == LinkError::PermissionDenied(path),
                IoErrorKind::Other => r == (LinkError::Io { path, message }),
            },
    {
        match kind {
            IoErrorKind::NotFound => LinkError::NotFound(path),
            IoErrorKind::PermissionDenied => LinkError::PermissionDenied(path),
            IoErrorKind::Other => LinkError::Io { path, message },
        }
    }
}

impl LinkError {
    /// What the error says; paths are shown between double quotes.
    pub open spec fn spec_message(&self) -> Seq<char> {
        match self {
            LinkError::NotFound(p) => "path `"@ + quoted(p@) + "` not found"@,
            LinkError::PermissionDenied(p) => "permission denied on `"@ + quoted(p@) + "`"@,
            LinkError::AlreadyExists { from, target } => "target `"@ + quoted(target@)
                + "` already exists and does not match source `"@ + quoted(from@) + "` — refusing to overwrite"@,
            LinkError::CrossFilesystem { from, target } => "cross-filesystem hardlink: `"@ + quoted(from@)
                + "` and `"@ + quoted(target@) + "` live on different devices"@,
            LinkError::ExpectedDirectory { path } => "expected `"@ + quoted(path@)
                + "` to be a directory for movie-level linking — found a file"@,
            LinkError::ExpectedFile { path } => "expected `"@ + quoted(path@)
                + "` to be a file for episode-level linking — found a directory"@,
            LinkError::InvalidRelativePath(p) => "relative path `"@ + quoted(p@)
                + "` must not be absolute or contain `..` components"@,
            LinkError::Io { path, message } => "io error on `"@ + quoted(path@) + "`: "@ + message@,
        }
    }

    /// Human-readable description.
    pub fn message(&self) -> (r: String)
        ensures
            r@ == self.spec_message(),
    {
        match self {
            LinkError::NotFound(p) => {
                let q = quote(p.as_str());
                concat3("path `", q.as_str(), "` not found")
            },
            LinkError::PermissionDenied(p) => {
                let q = quote(p.as_str());
                concat3("permission denied on `", q.as_str(), "`")
            },
            LinkError::AlreadyExists { from, target } => {
                let qt = quote(target.as_str());
                let qf = quote(from.as_str());
                let a = concat3("target `", qt.as_str(), "` already exists and does not match source `");
                concat3(a.as_str(), qf.as_str(), "` — refusing to overwrite")
            },
            LinkError::CrossFilesystem { from, target } => {
                let qf = quote(from.as_str());
                let qt = quote(target.as_str());
                let a = concat3("cross-filesystem hardlink: `", qf.as_str(), "` and `");
                concat3(a.as_str(), qt.as_str(), "` live on different devices")
            },
            LinkError::ExpectedDirectory { path } => {
                let q = quote(path.as_str());
                concat3("expected `", q.as_str(), "` to be a directory for movie-level linking — found a file")
            },
            LinkError::ExpectedFile { path } => {
                let q = quote(path.as_str());
                concat3("expected `", q.as_str(), "` to be a file for episode-level linking — found a directory")
            },
            LinkError::InvalidRelativePath(p) => {
                let q = quote(p.as_str());
                concat3("relative path `", q.as_str(), "` must not be absolute or contain `..` components")
            },
            LinkError::Io { path, message } => {
                let q = quote(path.as_str());
                let a = concat3("io error on `", q.as_str(), "`: ");
                concat2(a.as_str(), message.as_str())
            },
        }
    }
}

} // verus!

verus! {

/// The errno of a hard link across file systems (`EXDEV`, 18 on Linux and macOS).
pub fn libc_exdev() -> (r: i32)
    ensures
        r == 18,
{
    18
}

impl LinkError {
    /// A failed hard link from `from` to `target`: `EXDEV` means the two
    /// paths are on different file systems; anything else is classified as
    /// any I/O failure on `target`.
    pub fn from_hardlink_failure(
        from: String,
        target: String,
        raw_os_error: Option<i32>,
        kind: IoErrorKind,
        message: String,
    ) -> (r: Self)
        ensures
            raw_os_error == Some(18i32) ==> r == (LinkError::CrossFilesystem { from, target }),
            raw_os_error != Some(18i32) ==> match kind {
                IoErrorKind::NotFound => r == LinkError::NotFound(target),
                IoErrorKind::PermissionDenied => r == LinkError::PermissionDenied(target),
                IoErrorKind::Other => r == (LinkError::Io { path: target, message }),
            },
    {
        let cross = match raw_os_error {
            Some(code) => code == libc_exdev(),
            None => false,
        };
        if cross {
            LinkError::CrossFilesystem { from, target }
        } else {
            LinkError::from_io(target, kind, message)
        }
    }
}

} // verus!
