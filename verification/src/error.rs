//! The failures that end a resolution, and the message each one carries.

use vstd::prelude::*;
use vstd::string::StringExecFns;

verus! {

/// Why a resolution failed. Every failure is final: nothing is tried again.
#[derive(Clone, Debug, PartialEq, Eq)]
pub enum ResolveError {
    /// The host could not give the latest release; `message` is the host's own.
    ReleaseFetch { message: String },
    /// The release holds no asset with the expected name.
    AssetNotFound { name: String },
    /// The version directory could not be created.
    CreateDir { dir: String, cause: String },
    /// The asset could not be downloaded or unpacked.
    Download { cause: String },
    /// The executable bit could not be set; `message` is the host's own.
    MakeExecutable { message: String },
}

/// What a failure is, with its texts as sequences of characters.
pub enum FailureModel {
    ReleaseFetch { message: Seq<char> },
    AssetNotFound { name: Seq<char> },
    CreateDir { dir: Seq<char>, cause: Seq<char> },
    Download { cause: Seq<char> },
    MakeExecutable { message: Seq<char> },
}

impl View for ResolveError {
    type V = FailureModel;

    open spec fn view(&self) -> FailureModel {
        match *self {
            ResolveError::ReleaseFetch { message } => FailureModel::ReleaseFetch {
                message: message@,
            },
            ResolveError::AssetNotFound { name } => FailureModel::AssetNotFound { name: name@ },
            ResolveError::CreateDir { dir, cause } => FailureModel::CreateDir {
                dir: dir@,
                cause: cause@,
            },
            ResolveError::Download { cause } => FailureModel::Download { cause: cause@ },
            ResolveError::MakeExecutable { message } => FailureModel::MakeExecutable {
                message: message@,
            },
        }
    }
}

/// The text that the standard `Debug` formatting writes for a string: the string
/// between double quotes, with the characters that need it escaped.
pub uninterp spec fn debug_text(s: Seq<char>) -> Seq<char>;

/// Formats a string as `Debug` does, by `format!` with `{:?}`. The contract only
/// names the result: it is a function of the characters of `s` alone.
#[verifier::external_body]
fn debug_quoted(s: &str) -> (r: String)
    ensures
        r@ == debug_text(s@),
{
    format!("{:?}", s)
}

impl FailureModel {
    /// The message of a failure. Failures of the host's own calls keep the host's
    /// text; the others say what was attempted and on what.
    pub open spec fn message(self) -> Seq<char> {
        match self {
            FailureModel::ReleaseFetch { message } => message,
            FailureModel::AssetNotFound { name } => "no asset found matching "@ + debug_text(name),
            FailureModel::CreateDir { dir, cause } => "failed to create directory '"@ + dir + "': "@
                + cause,
            FailureModel::Download { cause } => "failed to download file: "@ + cause,
            FailureModel::MakeExecutable { message } => message,
        }
    }
}

impl ResolveError {
    /// Renders the failure as the message handed to the caller.
    pub fn message(&self) -> (r: String)
        ensures
            r@ == self@.message(),
    {
        match self {
            ResolveError::ReleaseFetch { message } => message.clone(),
            ResolveError::AssetNotFound { name } => {
                let quoted = debug_quoted(name.as_str());
                let mut text = String::from_str("no asset found matching ");
                text.append(quoted.as_str());
                text
            },
            ResolveError::CreateDir { dir, cause } => {
                let mut text = String::from_str("failed to create directory '");
                text.append(dir.as_str());
                text.append("': ");
                text.append(cause.as_str());
                text
            },
            ResolveError::Download { cause } => {
                let mut text = String::from_str("failed to download file: ");
                text.append(cause.as_str());
                text
            },
            ResolveError::MakeExecutable { message } => message.clone(),
        }
    }
}

} // verus!
