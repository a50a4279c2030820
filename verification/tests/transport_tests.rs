use rtc_session::errors::Error;
use rtc_session::transport::{
    DTLSParameters, DTLSRole, HandshakeConfig, RTCCertificate, RTCDtlsFingerprint,
    RTCDtlsTransport, RTCDtlsTransportState, RTCIceTransport, RTCIceTransportState, SecureChannel,
};

fn fingerprint(alg: &str, value: &str) -> RTCDtlsFingerprint {
    RTCDtlsFingerprint { algorithm: alg.to_owned(), value: value.to_owned() }
}

fn cert(handle: u64, prints: Vec<RTCDtlsFingerprint>) -> RTCCertificate {
    RTCCertificate { handle, fingerprints: prints }
}

fn remote_params() -> DTLSParameters {
    DTLSParameters { role: DTLSRole::Auto, fingerprints: vec![fingerprint("sha-256", "AA:BB")] }
}

fn started_ice() -> RTCIceTransport {
    RTCIceTransport::new(RTCIceTransportState::Checking)
}

#[test]
fn new_transport_starts_fresh() {
    let t = RTCDtlsTransport::new(started_ice(), vec![cert(7, vec![])]);
    assert_eq!(t.state(), RTCDtlsTransportState::New);
    assert_eq!(t.conn(), None);
    assert!(t.get_remote_certificate().is_empty());
    assert_eq!(t.ice_transport().state(), RTCIceTransportState::Checking);
}

#[test]
fn start_requires_connectivity_layer_started() {
    let ice = RTCIceTransport::new(RTCIceTransportState::New);
    let mut t = RTCDtlsTransport::new(ice, vec![cert(1, vec![])]);
    assert_eq!(t.ensure_ice_conn(), Err(Error::ErrICEConnectionNotStarted));
    assert_eq!(t.start(remote_params()), Err(Error::ErrICEConnectionNotStarted));
    assert_eq!(t.state(), RTCDtlsTransportState::New);
}

#[test]
fn start_requires_an_identity() {
    let mut t = RTCDtlsTransport::new(started_ice(), vec![]);
    assert_eq!(t.start(remote_params()), Err(Error::ErrNonCertificate));
    assert_eq!(t.state(), RTCDtlsTransportState::New);
}

#[test]
fn start_selects_first_identity_and_connects() {
    let mut t = RTCDtlsTransport::new(started_ice(), vec![cert(41, vec![]), cert(42, vec![])]);
    let config = t.start(remote_params()).unwrap();
    assert_eq!(
        config,
        HandshakeConfig {
            certificate: 41,
            role: DTLSRole::Client,
            client_cert_required: true,
            insecure_skip_verify: true,
        }
    );
    assert_eq!(t.state(), RTCDtlsTransportState::Connecting);

    let outcome = Ok(SecureChannel { handle: 9, remote_certificate: vec![1, 2, 3] });
    assert_eq!(t.complete_start(outcome), Ok(()));
    assert_eq!(t.state(), RTCDtlsTransportState::Connected);
    assert_eq!(t.conn(), Some(9));
    assert_eq!(t.get_remote_certificate(), vec![1, 2, 3]);
}

#[test]
fn start_twice_fails_with_sequence_error() {
    let mut t = RTCDtlsTransport::new(started_ice(), vec![cert(1, vec![])]);
    assert!(t.start(remote_params()).is_ok());
    assert_eq!(t.start(remote_params()), Err(Error::ErrInvalidDTLSStart));
    assert_eq!(t.state(), RTCDtlsTransportState::Connecting);

    let outcome = Ok(SecureChannel { handle: 3, remote_certificate: vec![] });
    assert_eq!(t.complete_start(outcome), Ok(()));
    assert_eq!(t.start(remote_params()), Err(Error::ErrInvalidDTLSStart));
    assert_eq!(t.state(), RTCDtlsTransportState::Connected);
}

#[test]
fn failed_handshake_moves_to_failed_and_keeps_channel_empty() {
    let mut t = RTCDtlsTransport::new(started_ice(), vec![cert(1, vec![])]);
    assert!(t.start(remote_params()).is_ok());
    let r = t.complete_start(Err("handshake timed out".to_owned()));
    assert_eq!(r, Err(Error::ErrTransport("handshake timed out".to_owned())));
    assert_eq!(t.state(), RTCDtlsTransportState::Failed);
    assert_eq!(t.conn(), None);
    assert_eq!(t.start(remote_params()), Err(Error::ErrInvalidDTLSStart));
}

#[test]
fn local_parameters_need_an_identity() {
    let t = RTCDtlsTransport::new(started_ice(), vec![]);
    assert_eq!(t.get_local_parameters().err(), Some(Error::ErrNonCertificate));
}

#[test]
fn local_parameters_union_fingerprints_in_identity_order() {
    let c1 = cert(1, vec![fingerprint("sha-256", "11"), fingerprint("sha-384", "22")]);
    let c2 = cert(2, vec![fingerprint("sha-512", "33")]);
    let t = RTCDtlsTransport::new(started_ice(), vec![c1, c2]);
    let p = t.get_local_parameters().unwrap();
    assert_eq!(p.role, DTLSRole::Auto);
    let got: Vec<(String, String)> =
        p.fingerprints.iter().map(|f| (f.algorithm.clone(), f.value.clone())).collect();
    assert_eq!(
        got,
        vec![
            ("sha-256".to_owned(), "11".to_owned()),
            ("sha-384".to_owned(), "22".to_owned()),
            ("sha-512".to_owned(), "33".to_owned()),
        ]
    );
}

#[test]
fn state_change_handler_slot_is_replaced_wholesale() {
    let mut t = RTCDtlsTransport::new(started_ice(), vec![cert(1, vec![])]);
    assert_eq!(t.on_state_change_handler, None);
    t.on_state_change(10);
    assert_eq!(t.on_state_change_handler, Some(10));
    t.on_state_change(11);
    assert_eq!(t.on_state_change_handler, Some(11));
}
