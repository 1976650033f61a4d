//! The error taxonomy of the client. Every failure aborts its whole
//! operation; no kind is retried or recovered internally.

use vstd::prelude::*;

verus! {

/// One kind per way a run can fail.
#[derive(Clone, Copy, Debug, PartialEq, Eq, Structural)]
pub enum ErrorKind {
    /// The configuration document is missing a usable `api_key` entry or does
    /// not parse.
    Config,
    /// The target file could not be read.
    InputIo,
    /// The connection itself failed (DNS, TLS, transport).
    Transport,
    /// The service answered with a non-2xx status.
    HttpStatus,
    /// The response body is not valid JSON or lacks the `data` envelope field.
    Decode,
    /// The envelope is valid JSON but its `data` does not have the shape the
    /// endpoint promises (a missing `reportedAddress`, a non-array).
    Schema,
    /// The output or configuration path already names a file.
    DestinationExists,
    /// The interactively captured credential was empty or aborted.
    CredentialInput,
}

impl ErrorKind {
    /// A short stable label for rendering messages outside the library.
    pub fn label(&self) -> (s: &'static str)
        ensures
            s@ == self.spec_label(),
    {
        match self {
            ErrorKind::Config => "config error",
            ErrorKind::InputIo => "input i/o error",
            ErrorKind::Transport => "transport error",
            ErrorKind::HttpStatus => "http status error",
            ErrorKind::Decode => "decode error",
            ErrorKind::Schema => "schema error",
            ErrorKind::DestinationExists => "destination exists",
            ErrorKind::CredentialInput => "credential input error",
        }
    }

    pub open spec fn spec_label(self) -> Seq<char> {
        match self {
            ErrorKind::Config => "config error"@,
            ErrorKind::InputIo => "input i/o error"@,
            ErrorKind::Transport => "transport error"@,
            ErrorKind::HttpStatus => "http status error"@,
            ErrorKind::Decode => "decode error"@,
            ErrorKind::Schema => "schema error"@,
            ErrorKind::DestinationExists => "destination exists"@,
            ErrorKind::CredentialInput => "credential input error"@,
        }
    }
}

} // verus!
