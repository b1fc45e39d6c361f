//! The error taxonomy of the library.
//!
//! Every fallible operation reports one of these variants; there is no
//! retry or local recovery anywhere, so the first failure is handed
//! straight back to the caller.

use crate::numfmt::{dec_digits, u64_to_dec};
use vstd::prelude::*;

verus! {

/// Everything that can go wrong in the client-side pipeline.
#[derive(Debug)]
pub enum GlabuError {
    /// A resolver missed: the remote answered 404.
    NotFound,
    /// A package listing that had to yield a result was empty.
    PackageNotFound,
    /// An upload did not answer 201; carries the server body.
    UploadFailed { status: u16, body: String },
    /// A file download did not answer 200; carries the server body.
    DownloadFailed { body: String },
    /// A package deletion did not answer 200.
    DeleteFailed { status: u16 },
    /// Any other non-2xx answer; carries the server body as detail.
    RequestFailed { status: u16, body: String },
    /// The caller configured an operation incompatibly.
    ConfigurationError { detail: String },
    /// An external tool exited with a failure.
    SubprocessFailed { detail: String },
}

/// The rendered message of an upload failure.
pub open spec fn spec_upload_message(status: nat, body: Seq<char>) -> Seq<char> {
    "Upload failed with status: "@ + dec_digits(status) + ", and message: "@ + body
}

/// The rendered message of a download failure.
pub open spec fn spec_download_message(body: Seq<char>) -> Seq<char> {
    "DownloadFileErr: "@ + body
}

/// The rendered message of a deletion failure.
pub open spec fn spec_delete_message(status: nat) -> Seq<char> {
    "DeletePackageErr: "@ + dec_digits(status)
}

/// The rendered message of a generic request failure.
pub open spec fn spec_request_message(status: nat, body: Seq<char>) -> Seq<char> {
    "RequestErr: "@ + dec_digits(status) + ": "@ + body
}

/// The rendered message of each error variant.
pub open spec fn spec_error_message(e: GlabuError) -> Seq<char> {
    match e {
        GlabuError::NotFound => "NotFound"@,
        GlabuError::PackageNotFound => "PackageNotFound"@,
        GlabuError::UploadFailed { status, body } => spec_upload_message(status as nat, body@),
        GlabuError::DownloadFailed { body } => spec_download_message(body@),
        GlabuError::DeleteFailed { status } => spec_delete_message(status as nat),
        GlabuError::RequestFailed { status, body } => spec_request_message(status as nat, body@),
        GlabuError::ConfigurationError { detail } => "ConfigurationError: "@ + detail@,
        GlabuError::SubprocessFailed { detail } => "SubprocessFailed: "@ + detail@,
    }
}

impl GlabuError {
    /// Renders the error as the message a user sees on the error stream.
    pub fn message(&self) -> (r: String)
        ensures
            r@ == spec_error_message(*self),
    {
        match self {
            GlabuError::NotFound => String::from_str("NotFound"),
            GlabuError::PackageNotFound => String::from_str("PackageNotFound"),
            GlabuError::UploadFailed { status, body } => {
                let mut out = String::from_str("Upload failed with status: ");
                let dec = u64_to_dec(*status as u64);
                out.append(dec.as_str());
                out.append(", and message: ");
                out.append(body.as_str());
                out
            },
            GlabuError::DownloadFailed { body } => {
                let mut out = String::from_str("DownloadFileErr: ");
                out.append(body.as_str());
                out
            },
            GlabuError::DeleteFailed { status } => {
                let mut out = String::from_str("DeletePackageErr: ");
                let dec = u64_to_dec(*status as u64);
                out.append(dec.as_str());
                out
            },
            GlabuError::RequestFailed { status, body } => {
                let mut out = String::from_str("RequestErr: ");
                let dec = u64_to_dec(*status as u64);
                out.append(dec.as_str());
                out.append(": ");
                out.append(body.as_str());
                out
            },
            GlabuError::ConfigurationError { detail } => {
                let mut out = String::from_str("ConfigurationError: ");
                out.append(detail.as_str());
                out
            },
            GlabuError::SubprocessFailed { detail } => {
                let mut out = String::from_str("SubprocessFailed: ");
                out.append(detail.as_str());
                out
            },
        }
    }
}

/// The message of an upload failure carries the server body verbatim:
/// it appears as a contiguous run of the rendered message.
pub proof fn lemma_upload_message_contains_body(status: u16, body: Seq<char>)
    ensures
        ({
            let m = spec_upload_message(status as nat, body);
            exists|i: int|
                0 <= i && i + body.len() <= m.len() && #[trigger] m.subrange(i, i + body.len())
                    == body
        }),
{
    let m = spec_upload_message(status as nat, body);
    let a: int = ("Upload failed with status: "@.len() + dec_digits(status as nat).len()
        + ", and message: "@.len()) as int;
    assert(m.subrange(a, a + body.len()) =~= body);
    assert(0 <= a && a + body.len() <= m.len() && m.subrange(a, a + body.len()) == body);
}

} // verus!
