use vstd::prelude::*;

verus! {

/// The failures this layer reports.
///
/// Lifecycle misuse (`ErrInvalidDTLSStart`, `ErrRTPReceiverReceiveAlreadyCalled`)
/// and missing prerequisites fail fast; collaborator failures are carried in
/// `ErrTransport`; close failures gathered during `stop` are combined into one
/// `ErrAggregate` so that a stuck stream cannot mask cleanup of the others.
#[derive(Debug, Clone, PartialEq, Eq)]
pub enum Error {
    /// The connectivity layer has not been started yet.
    ErrICEConnectionNotStarted,
    /// Negotiation was already started on this transport.
    ErrInvalidDTLSStart,
    /// No local identity is configured.
    ErrNonCertificate,
    /// `receive` was already invoked on this receiver.
    ErrRTPReceiverReceiveAlreadyCalled,
    /// The operation raced a shutdown.
    ErrClosedPipe,
    /// The stream pipeline needed here was never bound.
    ErrInterceptorNotBind,
    /// No track exists to serve this read.
    ErrExistingTrack,
    /// No bound track stream matches the requested RID.
    ErrRTPReceiverForRIDTrackStreamNotFound,
    /// A collaborator (handshake or connectivity) failed; its message is carried.
    ErrTransport(String),
    /// The RTCP packet codec refused the buffer; its message is carried.
    ErrRtcpUnmarshal(String),
    /// Several independent close failures, combined during `stop`.
    ErrAggregate(Vec<String>),
}

/// Combines the close failures gathered during teardown: no failure means
/// success, and any failures are returned together as one aggregate error.
pub fn flatten_errs(errs: Vec<String>) -> (r: Result<(), Error>)
    ensures
        r == (if errs@.len() == 0 {
            Ok::<(), Error>(())
        } else {
            Err::<(), Error>(Error::ErrAggregate(errs))
        }),
{
    if errs.len() == 0 {
        Ok(())
    } else {
        Err(Error::ErrAggregate(errs))
    }
}

} // verus!
