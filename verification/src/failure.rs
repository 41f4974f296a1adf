//! The failures a handshake can end in, each with the words shown to the
//! user.

use vstd::prelude::*;
use crate::text::join3;

verus! {

/// Why no server was launched.
#[derive(Clone, Copy, Debug, PartialEq, Eq, Structural)]
pub enum ErrorKind {
    /// The architecture or the operating system is not one a binary is
    /// published for, or the environment could not be read.
    UnsupportedPlatform,
    /// The configured server path was not found by the lookup of the host.
    ServerPathNotFound,
    /// The release asset could not be retrieved whole.
    FetchFailed,
    /// The asset could not be unpacked into the cache.
    InstallFailed,
    /// The payload of the request does not have the shape of `initialize`.
    MalformedRequest,
    /// The request names a method other than `initialize`.
    UnsupportedMethod,
}

impl ErrorKind {
    /// Failures the user can act on are also raised as an error notification
    /// of the host; the others only end the handshake.
    pub open spec fn spec_notifies(self) -> bool {
        self == ErrorKind::ServerPathNotFound || self == ErrorKind::FetchFailed || self
            == ErrorKind::InstallFailed
    }

    pub fn notifies(&self) -> (r: bool)
        ensures
            r == self.spec_notifies(),
    {
        match self {
            ErrorKind::ServerPathNotFound => true,
            ErrorKind::FetchFailed => true,
            ErrorKind::InstallFailed => true,
            _ => false,
        }
    }
}

/// A failure as reported to the host.
#[derive(Debug)]
pub struct StructuredError {
    pub kind: ErrorKind,
    pub message: String,
    pub notify: bool,
}

pub struct StructuredErrorView {
    pub kind: ErrorKind,
    pub message: Seq<char>,
    pub notify: bool,
}

impl View for StructuredError {
    type V = StructuredErrorView;

    open spec fn view(&self) -> StructuredErrorView {
        StructuredErrorView { kind: self.kind, message: self.message@, notify: self.notify }
    }
}

/// The report for a platform without a published binary.
pub open spec fn spec_unsupported_platform() -> StructuredErrorView {
    StructuredErrorView {
        kind: ErrorKind::UnsupportedPlatform,
        message: "unsupported platform"@,
        notify: false,
    }
}

/// The report for a payload that could not be decoded.
pub open spec fn spec_malformed_request() -> StructuredErrorView {
    StructuredErrorView {
        kind: ErrorKind::MalformedRequest,
        message: "malformed initialize request"@,
        notify: false,
    }
}

/// The report for a request that is not `initialize`.
pub open spec fn spec_unsupported_method(method: Seq<char>) -> StructuredErrorView {
    StructuredErrorView {
        kind: ErrorKind::UnsupportedMethod,
        message: "unsupported method "@ + method,
        notify: false,
    }
}

/// The report for an override path that the host could not find.
pub open spec fn spec_server_path_not_found(path: Seq<char>) -> StructuredErrorView {
    StructuredErrorView {
        kind: ErrorKind::ServerPathNotFound,
        message: "server path "@ + path + " couldn't be found, please check"@,
        notify: true,
    }
}

/// The report for a failed acquisition, `kind` telling whether the download
/// or the unpacking failed. Either way the user is pointed to the server
/// path setting.
pub open spec fn spec_acquisition_failed(
    kind: ErrorKind,
    server_name: Seq<char>,
) -> StructuredErrorView {
    StructuredErrorView {
        kind: kind,
        message: "can't download "@ + server_name + ", please use server path in the settings."@,
        notify: kind.spec_notifies(),
    }
}

impl StructuredError {
    pub fn unsupported_platform() -> (e: StructuredError)
        ensures
            e@ == spec_unsupported_platform(),
    {
        StructuredError {
            kind: ErrorKind::UnsupportedPlatform,
            message: String::from_str("unsupported platform"),
            notify: false,
        }
    }

    pub fn malformed_request() -> (e: StructuredError)
        ensures
            e@ == spec_malformed_request(),
    {
        StructuredError {
            kind: ErrorKind::MalformedRequest,
            message: String::from_str("malformed initialize request"),
            notify: false,
        }
    }

    pub fn unsupported_method(method: &str) -> (e: StructuredError)
        ensures
            e@ == spec_unsupported_method(method@),
    {
        let mut message = String::from_str("unsupported method ");
        message.append(method);
        StructuredError { kind: ErrorKind::UnsupportedMethod, message, notify: false }
    }

    pub fn server_path_not_found(path: &str) -> (e: StructuredError)
        ensures
            e@ == spec_server_path_not_found(path@),
    {
        StructuredError {
            kind: ErrorKind::ServerPathNotFound,
            message: join3("server path ", path, " couldn't be found, please check"),
            notify: true,
        }
    }

    pub fn acquisition_failed(kind: ErrorKind, server_name: &str) -> (e: StructuredError)
        ensures
            e@ == spec_acquisition_failed(kind, server_name@),
    {
        StructuredError {
            kind,
            message: join3(
                "can't download ",
                server_name,
                ", please use server path in the settings.",
            ),
            notify: kind.notifies(),
        }
    }
}

} // verus!
