use ionosphere::BLOCKSTREAM_ENDPOINT;
use ionosphere::Endpoint;
use ionosphere::Error;

#[test]
fn resolves_resources_of_the_default_endpoint() {
    let ep = Endpoint::new(BLOCKSTREAM_ENDPOINT.to_string()).unwrap();
    assert_eq!(ep.info_url().unwrap(), "https://satellite.blockstream.com/api/info");
    assert_eq!(ep.order_url().unwrap(), "https://satellite.blockstream.com/api/order");
    assert_eq!(
        ep.order_id_url("1234-abcd").unwrap(),
        "https://satellite.blockstream.com/api/order/1234-abcd"
    );
}

#[test]
fn join_replaces_the_last_path_segment() {
    // Hierarchical join: without a trailing slash the last segment is replaced.
    let ep = Endpoint::new("https://example.com/api".to_string()).unwrap();
    assert_eq!(ep.info_url().unwrap(), "https://example.com/info");
    let ep2 = Endpoint::new("https://example.com/api/".to_string()).unwrap();
    assert_eq!(ep2.info_url().unwrap(), "https://example.com/api/info");
}

#[test]
fn rejects_a_malformed_base_address() {
    match Endpoint::new("not an absolute url".to_string()) {
        Err(Error::InvalidEndpoint) => {}
        other => panic!("expected InvalidEndpoint, got {:?}", other),
    }
    match Endpoint::new("/relative/path".to_string()) {
        Err(Error::InvalidEndpoint) => {}
        other => panic!("expected InvalidEndpoint, got {:?}", other),
    }
}

#[test]
fn accepts_any_wellformed_absolute_url() {
    assert!(Endpoint::new("http://localhost:9945/".to_string()).is_ok());
    assert!(Endpoint::new("https://satellite.blockstream.com/api/".to_string()).is_ok());
}
