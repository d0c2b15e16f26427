use vstd::prelude::*;

verus! {

/// The three terminal failure kinds of loading a manifest: the document could
/// not be parsed into the expected shape, the input bytes were not valid UTF-8,
/// or a file or directory operation failed for a reason other than not-found.
/// Each variant carries a human-readable description of the underlying cause.
#[derive(Debug, Clone, PartialEq, Eq)]
pub enum Error {
    /// The document is malformed, or a section does not have the expected shape.
    Parse(String),
    /// The input bytes are not valid UTF-8 text.
    Utf8(String),
    /// A file read or directory listing failed, other than by not-found.
    Io(String),
}

impl Error {
    /// The description carried by the error, whatever its kind.
    pub open spec fn spec_message(&self) -> Seq<char> {
        match self {
            Error::Parse(m) => m@,
            Error::Utf8(m) => m@,
            Error::Io(m) => m@,
        }
    }

    /// Human-readable description of the underlying cause.
    pub fn message(&self) -> (r: &str)
        ensures
            r@ == self.spec_message(),
    {
        match self {
            Error::Parse(m) => m.as_str(),
            Error::Utf8(m) => m.as_str(),
            Error::Io(m) => m.as_str(),
        }
    }
}

} // verus!
