use vstd::prelude::*;

verus! {

/// What can go wrong while decoding nl80211 replies or driving a request.
#[derive(Debug, Clone, Copy, PartialEq, Eq, Structural)]
pub enum Nl80211Error {
    /// A scalar payload does not have the width of its type.
    LengthMismatch { expected: usize, actual: usize },
    /// An attribute header is cut short, or claims more bytes than remain.
    TruncatedFrame,
    /// The socket could not be opened or bound, or the family could not be resolved.
    TransportError,
    /// The kernel answered with a netlink error message carrying `code`.
    ProtocolError { code: i32 },
    /// A targeted query was asked for without a usable interface index.
    InvalidTarget,
}

} // verus!
