use vstd::prelude::*;

verus! {

/// What can go wrong while a package is built, read or moved.
#[derive(Debug, Clone, Copy, PartialEq, Eq, Structural)]
pub enum PCSError {
    /// The underlying stream failed. Whoever drives the stream keeps the cause.
    IOError,
    /// A read asked for more bytes than the payload still holds.
    OutOfBounds,
    /// Four bytes were read as a character but are no Unicode scalar value.
    InvalidCodepoint,
    /// The envelope could not be brought into its wire form.
    EncodingError,
    /// The bytes are no complete, well-formed envelope.
    DecodingError,
    /// An in-process transport holds no package at the moment.
    WouldBlock,
    /// An in-process transport has lost its other end.
    Closed,
}

impl PCSError {
    /// The text of each error.
    pub open spec fn text(self) -> Seq<char> {
        match self {
            PCSError::IOError => "IOError"@,
            PCSError::OutOfBounds => "read past the end of the payload"@,
            PCSError::InvalidCodepoint => "not a Unicode scalar value"@,
            PCSError::EncodingError => "package could not be encoded"@,
            PCSError::DecodingError => "package corrupt or incomplete"@,
            PCSError::WouldBlock => "no package is waiting"@,
            PCSError::Closed => "the channel is closed"@,
        }
    }

    /// A human-readable description of the error.
    pub fn message(&self) -> (res: String)
        ensures
            res@ == self.text(),
    {
        match self {
            PCSError::IOError => "IOError".to_owned(),
            PCSError::OutOfBounds => "read past the end of the payload".to_owned(),
            PCSError::InvalidCodepoint => "not a Unicode scalar value".to_owned(),
            PCSError::EncodingError => "package could not be encoded".to_owned(),
            PCSError::DecodingError => "package corrupt or incomplete".to_owned(),
            PCSError::WouldBlock => "no package is waiting".to_owned(),
            PCSError::Closed => "the channel is closed".to_owned(),
        }
    }

}

} // verus!
