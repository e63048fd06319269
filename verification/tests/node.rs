use ionosphere::BitcoinNetwork;
use ionosphere::LightningNode;
use ionosphere::NodeAddress;

fn descriptor(addresses: Vec<NodeAddress>) -> LightningNode {
    LightningNode {
        id: "02abcdef".to_string(),
        address: addresses,
        version: "v23.08".to_string(),
        block_height: 800_000,
        network: BitcoinNetwork::Testnet,
    }
}

#[test]
fn prefers_the_first_advertised_address() {
    let node = descriptor(vec![
        NodeAddress {
            addr_type: "ipv4".to_string(),
            address: "203.0.113.7".to_string(),
            port: 9735,
        },
        NodeAddress {
            addr_type: "torv3".to_string(),
            address: "example.onion".to_string(),
            port: 9735,
        },
    ]);
    let first = node.first_address().unwrap();
    assert_eq!(first.addr_type, "ipv4");
    assert_eq!(first.address, "203.0.113.7");
    assert_eq!(first.port, 9735);
}

#[test]
fn dials_host_and_port() {
    let addr = NodeAddress {
        addr_type: "ipv4".to_string(),
        address: "203.0.113.7".to_string(),
        port: 9735,
    };
    assert_eq!(addr.dial_string(), "203.0.113.7:9735");
    let onion = NodeAddress {
        addr_type: "torv3".to_string(),
        address: "example.onion".to_string(),
        port: 0,
    };
    assert_eq!(onion.dial_string(), "example.onion:0");
}

#[test]
fn writes_amounts_in_decimal() {
    assert_eq!(ionosphere::decimal::u64_to_decimal(0), "0");
    assert_eq!(ionosphere::decimal::u64_to_decimal(7), "7");
    assert_eq!(ionosphere::decimal::u64_to_decimal(10), "10");
    assert_eq!(ionosphere::decimal::u64_to_decimal(100_000), "100000");
    assert_eq!(ionosphere::decimal::u64_to_decimal(9735), "9735");
    assert_eq!(ionosphere::decimal::u64_to_decimal(65535), "65535");
    assert_eq!(
        ionosphere::decimal::u64_to_decimal(u64::MAX),
        "18446744073709551615"
    );
}

#[test]
fn connects_by_id_alone_without_addresses() {
    let node = descriptor(vec![]);
    assert!(node.first_address().is_none());
}
