use vstd::prelude::*;

verus! {

/// Which step of an operation failed.
#[derive(Clone, Copy, Debug, PartialEq, Eq, Structural)]
pub enum ErrorKind {
    /// The filesystem operation itself (read, write, remove, create) failed.
    Io,
    /// File content could not be decoded as JSON or TOML of the expected shape.
    Parse,
    /// A value could not be encoded as JSON; carries the encoder's own message.
    Encode,
}

/// A failure with one layer of context: `message` names the action and the
/// path, `cause` is the text of the underlying error.
#[derive(Debug)]
pub struct FsError {
    pub kind: ErrorKind,
    pub message: String,
    pub cause: String,
}

impl FsError {
    pub fn new(kind: ErrorKind, message: String, cause: String) -> (r: FsError)
        ensures
            r.kind == kind,
            r.message@ == message@,
            r.cause@ == cause@,
    {
        FsError { kind, message, cause }
    }

    /// The message followed by the cause, as the host program shows it.
    pub fn describe(&self) -> (r: String)
        ensures
            r@ == self.message@ + ": "@ + self.cause@,
    {
        let mut r = self.message.clone();
        r.append(": ");
        r.append(self.cause.as_str());
        r
    }
}

} // verus!
