use vstd::prelude::*;

verus! {

/// Failures of the layer-7 parsers. A parse failure is local: the caller
/// skips the payload and no state is kept.
#[derive(Clone, Copy, Debug, PartialEq, Eq, Structural)]
pub enum Error {
    /// The payload does not parse as the probed protocol.
    L7ProtocolUnknown,
    /// The parser only runs on TCP payloads.
    InvalidIpProtocol,
    /// The fixed header is truncated or its magic bytes mismatch.
    DubboHeaderParseFailed,
}

} // verus!
