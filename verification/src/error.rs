//! What can go wrong while managing extensions.

use vstd::prelude::*;

verus! {

/// The kinds of failure.
#[derive(Clone, Copy, Debug, PartialEq, Eq, Structural)]
pub enum Error {
    /// The URL does not parse.
    MalformedUrl,
    /// The URL's host is not the supported code-hosting provider.
    UnsupportedHost,
    /// The URL's path has no second segment.
    MissingRepositoryName,
    /// Cloning or building failed.
    BuildFailure,
    /// A file-system operation failed.
    IoFailure,
    /// The extension to remove is not in the store.
    NotFound,
}

impl Error {
    /// The text shown to the user for this kind of failure.
    pub open spec fn message_text(self) -> Seq<char> {
        match self {
            Error::MalformedUrl => "the URL could not be parsed"@,
            Error::UnsupportedHost => "only repositories hosted on github.com are supported"@,
            Error::MissingRepositoryName => "the URL does not name a repository"@,
            Error::BuildFailure => "cloning or building the extension failed"@,
            Error::IoFailure => "a file-system operation failed"@,
            Error::NotFound => "no such extension is installed"@,
        }
    }

    /// The text shown to the user for this kind of failure.
    pub fn message(&self) -> (text: String)
        ensures
            text@ == self.message_text(),
    {
        match self {
            Error::MalformedUrl => "the URL could not be parsed".to_owned(),
            Error::UnsupportedHost => "only repositories hosted on github.com are supported".to_owned(),
            Error::MissingRepositoryName => "the URL does not name a repository".to_owned(),
            Error::BuildFailure => "cloning or building the extension failed".to_owned(),
            Error::IoFailure => "a file-system operation failed".to_owned(),
            Error::NotFound => "no such extension is installed".to_owned(),
        }
    }
}

} // verus!
