use vstd::prelude::*;

verus! {

/// The error taxonomy of the host-call layer. Every failure is recovered at
/// the host-call boundary and handed to the guest as a numeric code; no error
/// is fatal to the host process.
#[derive(Clone, Copy, Debug, PartialEq, Eq, Structural)]
pub enum Error {
    /// A handle absent from the resource table (or of the wrong kind).
    InvalidHandle,
    /// Key/nonce/tag length mismatch, malformed cryptographic parameters,
    /// engine construction or finalize failure (including authentication
    /// failure on decrypt).
    InvalidArgument,
    /// An algorithm name outside the statically registered set.
    NotSupported,
    /// An operation present in the protocol but deliberately unfinished.
    NotImplemented,
    /// A byte sequence that is not valid UTF-8 where text was expected.
    MalformedSequence,
    /// A guest-memory offset/length outside the guest's addressable range.
    OutOfBounds,
    /// No free handle slot remains in the resource table.
    TableExhausted,
}

impl Error {
    /// The numeric code for each error kind, following the WASI errno
    /// numbering (badf, inval, ilseq, fault, nosys, notsup, nfile).
    pub open spec fn errno_spec(self) -> u16 {
        match self {
            Error::InvalidHandle => 8,
            Error::InvalidArgument => 28,
            Error::NotSupported => 58,
            Error::NotImplemented => 52,
            Error::MalformedSequence => 25,
            Error::OutOfBounds => 21,
            Error::TableExhausted => 41,
        }
    }

    /// Numeric error code returned to the guest in place of success.
    pub fn errno(&self) -> (code: u16)
        ensures
            code == self.errno_spec(),
    {
        match self {
            Error::InvalidHandle => 8,
            Error::InvalidArgument => 28,
            Error::NotSupported => 58,
            Error::NotImplemented => 52,
            Error::MalformedSequence => 25,
            Error::OutOfBounds => 21,
            Error::TableExhausted => 41,
        }
    }
}

/// Rejection of an argument or environment string offered to the builder.
#[derive(Clone, Copy, Debug, PartialEq, Eq, Structural)]
pub enum StringArrayError {
    /// The array already holds as many elements as the guest format can count.
    NumberElements,
    /// The cumulative byte size of the elements would leave the guest format's
    /// range.
    SizeElements,
}

} // verus!
