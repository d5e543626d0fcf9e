use nexus_actor::remote::loopback::{LoopbackTransport, TransportEndpoint};

#[test]
fn loopback_connects_and_closes() {
    let transport = LoopbackTransport::new();
    let endpoint = TransportEndpoint::new("loopback://peer".to_string());
    let mut handle = transport.connect(&endpoint);
    assert_eq!(handle.endpoint().uri, endpoint.uri);
    assert!(!handle.is_closed());
    handle.close();
    assert!(handle.is_closed());
}

#[test]
fn loopback_serve_is_noop() {
    let transport = LoopbackTransport::new();
    let listener = TransportEndpoint::new("loopback://listen".to_string());
    assert!(transport.serve(&listener));
}

#[test]
fn loopback_close_is_idempotent() {
    let transport = LoopbackTransport::new();
    let endpoint = TransportEndpoint::new("loopback://twice".to_string());
    let mut handle = transport.connect(&endpoint);
    handle.close();
    handle.close();
    assert!(handle.is_closed());
    assert_eq!(handle.endpoint().uri, "loopback://twice");
}
