use vstd::prelude::*;

use crate::errors::Error;

verus! {

/// The transport state of the secure datagram negotiation: it starts at
/// `New`, moves to `Connecting` when a handshake is launched, and ends in
/// either `Connected` or `Failed`. There is no transition back to `New`.
#[derive(Clone, Copy, Debug, PartialEq, Eq, Structural)]
pub enum RTCDtlsTransportState {
    New,
    Connecting,
    Connected,
    Failed,
}

/// The state of the connectivity (candidate-path) layer underneath this
/// transport, as far as this layer reads it: negotiation may only start once
/// that layer has left `New`.
#[derive(Clone, Copy, Debug, PartialEq, Eq, Structural)]
pub enum RTCIceTransportState {
    New,
    Checking,
    Connected,
    Completed,
    Disconnected,
    Failed,
    Closed,
}

/// The connectivity layer as this component sees it: only its lifecycle
/// state matters here. The real endpoint supplier lives outside and is
/// mirrored into this value by the caller.
#[derive(Clone, Copy, Debug, PartialEq, Eq, Structural)]
pub struct RTCIceTransport {
    pub state: RTCIceTransportState,
}

impl RTCIceTransport {
    pub fn new(state: RTCIceTransportState) -> (r: Self)
        ensures
            r.state == state,
    {
        RTCIceTransport { state }
    }

    pub fn state(&self) -> (r: RTCIceTransportState)
        ensures
            r == self.state,
    {
        self.state
    }
}

/// The handshake role this endpoint takes.
#[derive(Clone, Copy, Debug, PartialEq, Eq, Structural)]
pub enum DTLSRole {
    Auto,
    Client,
    Server,
}

/// One fingerprint entry of a local identity: a hash algorithm name and the
/// certificate digest rendered under it.
#[derive(Debug)]
pub struct RTCDtlsFingerprint {
    pub algorithm: String,
    pub value: String,
}

impl Clone for RTCDtlsFingerprint {
    fn clone(&self) -> (r: Self)
        ensures
            r == *self,
    {
        RTCDtlsFingerprint { algorithm: self.algorithm.clone(), value: self.value.clone() }
    }
}

/// The parameters one side advertises for negotiation: a role and the
/// fingerprints of its identities.
#[derive(Debug)]
pub struct DTLSParameters {
    pub role: DTLSRole,
    pub fingerprints: Vec<RTCDtlsFingerprint>,
}

/// A local signing identity, modelled by what this layer reads from it: its
/// fingerprint entries, plus an opaque handle under which the caller keeps
/// the real credential.
#[derive(Debug)]
pub struct RTCCertificate {
    pub handle: u64,
    pub fingerprints: Vec<RTCDtlsFingerprint>,
}

/// The fixed handshake configuration the negotiator selects: the first
/// configured identity as credential, client role, a required client
/// certificate, and remote-certificate verification skipped at this layer
/// (trust is established out-of-band by fingerprint comparison). No
/// protection profile is pre-agreed.
#[derive(Clone, Copy, Debug, PartialEq, Eq, Structural)]
pub struct HandshakeConfig {
    pub certificate: u64,
    pub role: DTLSRole,
    pub client_cert_required: bool,
    pub insecure_skip_verify: bool,
}

/// What a completed handshake hands back: an opaque handle to the secured
/// channel and the peer's certificate chain.
#[derive(Debug)]
pub struct SecureChannel {
    pub handle: u64,
    pub remote_certificate: Vec<u8>,
}

/// The secure transport negotiator. It owns the local identities, records
/// the peer's parameters and certificate chain, holds the single-slot
/// state-change handler, and stores the secured channel once — and only
/// once — negotiation succeeds.
///
/// The handshake itself is asynchronous I/O and runs outside: `start`
/// performs every check and transition up to launching it and returns the
/// configuration to run it with; `complete_start` records its outcome.
#[derive(Debug)]
pub struct RTCDtlsTransport {
    pub ice_transport: RTCIceTransport,
    pub certificates: Vec<RTCCertificate>,
    pub remote_parameters: Option<DTLSParameters>,
    pub remote_certificate: Vec<u8>,
    pub state: RTCDtlsTransportState,
    pub on_state_change_handler: Option<u64>,
    pub conn: Option<u64>,
}

/// The fingerprints of a sequence of identities, in identity order.
pub open spec fn all_fingerprints(certs: Seq<RTCCertificate>) -> Seq<RTCDtlsFingerprint>
    decreases certs.len(),
{
    if certs.len() == 0 {
        Seq::empty()
    } else {
        all_fingerprints(certs.drop_last()) + certs.last().fingerprints@
    }
}

impl RTCDtlsTransport {
    /// The secured-channel slot is empty until the transport is `Connected`.
    pub open spec fn wf(self) -> bool {
        self.state != RTCDtlsTransportState::Connected ==> self.conn is None
    }

    /// The state and result of `start`, as one step of the negotiation state
    /// machine: the connectivity layer must have left `New`, this transport
    /// must still be `New`, and an identity must be configured; then the
    /// peer's parameters are recorded, the state moves to `Connecting`, and
    /// the handshake configuration is selected.
    pub open spec fn spec_start(self, remote: DTLSParameters) -> (Self, Result<
        HandshakeConfig,
        Error,
    >) {
        if self.ice_transport.state == RTCIceTransportState::New {
            (self, Err(Error::ErrICEConnectionNotStarted))
        } else if self.state != RTCDtlsTransportState::New {
            (self, Err(Error::ErrInvalidDTLSStart))
        } else if self.certificates.len() == 0 {
            ((RTCDtlsTransport { remote_parameters: Some(remote), ..self }), Err(
                Error::ErrNonCertificate,
            ))
        } else {
            (
                (RTCDtlsTransport {
                    remote_parameters: Some(remote),
                    state: RTCDtlsTransportState::Connecting,
                    ..self
                }),
                Ok(
                    (HandshakeConfig {
                        certificate: self.certificates[0].handle,
                        role: DTLSRole::Client,
                        client_cert_required: true,
                        insecure_skip_verify: true,
                    }),
                ),
            )
        }
    }

    /// The state and result of `complete_start`: a successful handshake
    /// stores the channel and the peer's chain and moves to `Connected`; a
    /// failed one moves to `Failed`, leaves the channel slot empty, and
    /// propagates the collaborator's message.
    pub open spec fn spec_complete_start(self, outcome: Result<SecureChannel, String>) -> (
        Self,
        Result<(), Error>,
    ) {
        match outcome {
            Ok(channel) => (
                (RTCDtlsTransport {
                    conn: Some(channel.handle),
                    remote_certificate: channel.remote_certificate,
                    state: RTCDtlsTransportState::Connected,
                    ..self
                }),
                Ok(()),
            ),
            Err(msg) => (
                (RTCDtlsTransport { state: RTCDtlsTransportState::Failed, ..self }),
                Err(Error::ErrTransport(msg)),
            ),
        }
    }

    pub fn new(ice_transport: RTCIceTransport, certificates: Vec<RTCCertificate>) -> (r: Self)
        ensures
            r.ice_transport == ice_transport,
            r.certificates == certificates,
            r.remote_parameters is None,
            r.remote_certificate@ == Seq::<u8>::empty(),
            r.state == RTCDtlsTransportState::New,
            r.on_state_change_handler is None,
            r.conn is None,
            r.wf(),
    {
        RTCDtlsTransport {
            ice_transport,
            certificates,
            remote_parameters: None,
            remote_certificate: Vec::new(),
            state: RTCDtlsTransportState::New,
            on_state_change_handler: None,
            conn: None,
        }
    }

    /// The secured channel, or `None` while negotiation has not succeeded.
    pub fn conn(&self) -> (r: Option<u64>)
        ensures
            r == self.conn,
    {
        self.conn
    }

    /// The connectivity layer as currently mirrored into this transport.
    pub fn ice_transport(&self) -> (r: &RTCIceTransport)
        ensures
            *r == self.ice_transport,
    {
        &self.ice_transport
    }

    /// Mirrors the connectivity layer's current lifecycle state; the caller
    /// keeps it up to date, since that layer changes outside this component.
    pub fn set_ice_transport_state(&mut self, state: RTCIceTransportState)
        ensures
            *final(self) == (RTCDtlsTransport {
                ice_transport: RTCIceTransport { state },
                ..*old(self)
            }),
    {
        self.ice_transport = RTCIceTransport { state };
    }

    /// Replaces the single-slot state-change handler: only the most recently
    /// registered handler receives future notifications.
    pub fn on_state_change(&mut self, handler: u64)
        ensures
            *final(self) == (RTCDtlsTransport {
                on_state_change_handler: Some(handler),
                ..*old(self)
            }),
    {
        self.on_state_change_handler = Some(handler);
    }

    /// The current transport state.
    pub fn state(&self) -> (r: RTCDtlsTransportState)
        ensures
            r == self.state,
    {
        self.state
    }

    /// Derives the local negotiation parameters: the fingerprints of every
    /// configured identity, in identity order, under the default role; fails
    /// when no identity is configured.
    pub fn get_local_parameters(&self) -> (r: Result<DTLSParameters, Error>)
        ensures
            self.certificates@.len() == 0 ==> r == Err::<DTLSParameters, Error>(
                Error::ErrNonCertificate,
            ),
            self.certificates@.len() > 0 ==> (r matches Ok(p) && p.role == DTLSRole::Auto
                && p.fingerprints@ == all_fingerprints(self.certificates@)),
    {
        if self.certificates.len() == 0 {
            return Err(Error::ErrNonCertificate);
        }
        let mut fingerprints: Vec<RTCDtlsFingerprint> = Vec::new();
        let mut i: usize = 0;
        while i < self.certificates.len()
            invariant
                i <= self.certificates@.len(),
                fingerprints@ == all_fingerprints(self.certificates@.take(i as int)),
            decreases self.certificates@.len() - i,
        {
            let cert = &self.certificates[i];
            let mut j: usize = 0;
            while j < cert.fingerprints.len()
                invariant
                    0 <= i < self.certificates@.len(),
                    j <= cert.fingerprints@.len(),
                    cert == self.certificates@[i as int],
                    fingerprints@ == all_fingerprints(self.certificates@.take(i as int))
                        + cert.fingerprints@.take(j as int),
                decreases cert.fingerprints@.len() - j,
            {
                fingerprints.push(cert.fingerprints[j].clone());
                proof {
                    assert(cert.fingerprints@.take(j + 1) =~= cert.fingerprints@.take(j as int)
                        + seq![cert.fingerprints@[j as int]]);
                    assert(fingerprints@ =~= all_fingerprints(self.certificates@.take(i as int))
                        + cert.fingerprints@.take(j + 1));
                }
                j += 1;
            }
            proof {
                assert(cert.fingerprints@.take(cert.fingerprints@.len() as int) =~= cert
                    .fingerprints@);
                assert(self.certificates@.take(i + 1).drop_last() =~= self.certificates@.take(
                    i as int,
                ));
                assert(self.certificates@.take(i + 1).last() == self.certificates@[i as int]);
                assert(all_fingerprints(self.certificates@.take(i + 1)) == all_fingerprints(
                    self.certificates@.take(i as int),
                ) + cert.fingerprints@);
            }
            i += 1;
        }
        proof {
            assert(self.certificates@.take(self.certificates@.len() as int)
                =~= self.certificates@);
        }
        Ok(DTLSParameters { role: DTLSRole::Auto, fingerprints })
    }

    /// The peer's certificate chain: empty before negotiation completes.
    pub fn get_remote_certificate(&self) -> (r: Vec<u8>)
        ensures
            r@ == self.remote_certificate@,
    {
        self.remote_certificate.clone()
    }

    /// Checks that the connectivity layer was started, enforcing the
    /// layering order: connectivity before security.
    pub fn ensure_ice_conn(&self) -> (r: Result<(), Error>)
        ensures
            r == (if self.ice_transport.state == RTCIceTransportState::New {
                Err::<(), Error>(Error::ErrICEConnectionNotStarted)
            } else {
                Ok::<(), Error>(())
            }),
    {
        if self.ice_transport.state == RTCIceTransportState::New {
            Err(Error::ErrICEConnectionNotStarted)
        } else {
            Ok(())
        }
    }

    /// Starts negotiation with the peer's parameters: checks the layering
    /// order and the at-most-once rule, records the parameters, selects the
    /// first configured identity, and moves to `Connecting`. On success the
    /// caller runs the handshake with the returned configuration and reports
    /// its outcome through `complete_start`.
    pub fn start(&mut self, remote_parameters: DTLSParameters) -> (r: Result<
        HandshakeConfig,
        Error,
    >)
        ensures
            (*final(self), r) == old(self).spec_start(remote_parameters),
            old(self).wf() ==> final(self).wf(),
    {
        if self.ice_transport.state == RTCIceTransportState::New {
            return Err(Error::ErrICEConnectionNotStarted);
        }
        if !matches!(self.state, RTCDtlsTransportState::New) {
            return Err(Error::ErrInvalidDTLSStart);
        }
        self.remote_parameters = Some(remote_parameters);
        if self.certificates.len() == 0 {
            return Err(Error::ErrNonCertificate);
        }
        let certificate = self.certificates[0].handle;
        self.state = RTCDtlsTransportState::Connecting;
        Ok(
            HandshakeConfig {
                certificate,
                role: DTLSRole::Client,
                client_cert_required: true,
                insecure_skip_verify: true,
            },
        )
    }

    /// Records the outcome of the handshake that a successful `start`
    /// launched: the channel slot is set exactly once, on success.
    pub fn complete_start(&mut self, outcome: Result<SecureChannel, String>) -> (r: Result<
        (),
        Error,
    >)
        requires
            old(self).state == RTCDtlsTransportState::Connecting,
            old(self).wf(),
        ensures
            (*final(self), r) == old(self).spec_complete_start(outcome),
            final(self).wf(),
    {
        match outcome {
            Ok(channel) => {
                self.conn = Some(channel.handle);
                self.remote_certificate = channel.remote_certificate;
                self.state = RTCDtlsTransportState::Connected;
                Ok(())
            },
            Err(msg) => {
                self.state = RTCDtlsTransportState::Failed;
                Err(Error::ErrTransport(msg))
            },
        }
    }
}

/// Negotiation is single-shot: once `start` has succeeded on a transport,
/// the state has left `New` for good — a second `start`, whatever its
/// parameters, fails with the sequence error and changes nothing, and no
/// handshake outcome brings the state back to `New`.
pub proof fn lemma_start_at_most_once(
    n: RTCDtlsTransport,
    r1: DTLSParameters,
    r2: DTLSParameters,
)
    requires
        n.spec_start(r1).1 is Ok,
    ensures
        n.spec_start(r1).0.state == RTCDtlsTransportState::Connecting,
        n.spec_start(r1).0.spec_start(r2).1 == Err::<HandshakeConfig, Error>(
            Error::ErrInvalidDTLSStart,
        ),
        n.spec_start(r1).0.spec_start(r2).0 == n.spec_start(r1).0,
        forall|outcome: Result<SecureChannel, String>|
            #[trigger] n.spec_start(r1).0.spec_complete_start(outcome).0.state
                != RTCDtlsTransportState::New,
{
}

/// A transport that has left `New` never returns there: neither a further
/// `start` nor any handshake outcome yields the `New` state again.
pub proof fn lemma_state_never_reverts_to_new(
    n: RTCDtlsTransport,
    remote: DTLSParameters,
    outcome: Result<SecureChannel, String>,
)
    requires
        n.state != RTCDtlsTransportState::New,
    ensures
        n.spec_start(remote).0.state != RTCDtlsTransportState::New,
        n.spec_complete_start(outcome).0.state != RTCDtlsTransportState::New,
{
}

} // verus!
