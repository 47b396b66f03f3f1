use vstd::prelude::*;

verus! {

/// The protocol's error taxonomy. Every failing operation of this crate
/// reports exactly one of these; the decode errors say precisely why a
/// buffer was rejected.
#[derive(Debug, Clone, Copy, PartialEq, Eq, Structural)]
pub enum RrcpError {
    /// A connection or stream operation of the transport failed.
    TransportError,
    /// Fewer than `HEADER_SIZE` bytes were offered to the header decoder.
    ShortBuffer,
    /// The stream closed before a whole frame was delivered.
    TruncatedFrame,
    /// The magic field of a header did not hold the protocol constant.
    BadMagic,
    /// The content-type field held a value outside the known enumerators.
    UnknownContentType,
    /// The method field held a value outside the known enumerators.
    UnknownMethod,
    /// No idle stream was available at checkout.
    PoolExhausted,
    /// A response body did not decode as the expected payload shape.
    PayloadDecodeError,
}

} // verus!
