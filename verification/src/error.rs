use vstd::prelude::*;

verus! {

/// The ways a menu step can fail.
///
/// The first three name the service whose call failed while gathering
/// telemetry or driving the display; `TransportError` covers a failed
/// connection or handshake to any upstream service; `MalformedMessageError`
/// marks an inbound event notification that carries no button code.
#[derive(Debug, Clone, Copy, PartialEq, Eq, Structural)]
pub enum MenuError {
    NetworkError,
    OledError,
    StatsError,
    TransportError,
    MalformedMessageError,
}

} // verus!
