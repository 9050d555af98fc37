use peer_discovery::address::{select_address, IfaceAddr, IfaceIp, SelectError};

fn plain_v4(octets: [u8; 4]) -> IfaceAddr {
    IfaceAddr { loopback: false, link_local: false, ip: IfaceIp::V4(octets) }
}

#[test]
fn selects_first_private_ipv4() {
    let ifaces = vec![
        IfaceAddr { loopback: true, link_local: false, ip: IfaceIp::V4([127, 0, 0, 1]) },
        IfaceAddr { loopback: false, link_local: true, ip: IfaceIp::V4([169, 254, 0, 5]) },
        IfaceAddr { loopback: false, link_local: false, ip: IfaceIp::V6 },
        plain_v4([192, 168, 1, 4]),
        plain_v4([10, 0, 0, 7]),
        plain_v4([10, 0, 0, 8]),
    ];
    assert_eq!(select_address(&ifaces).unwrap(), [10, 0, 0, 7]);
}

#[test]
fn skips_loopback_and_link_local_even_in_range() {
    let ifaces = vec![
        IfaceAddr { loopback: true, link_local: false, ip: IfaceIp::V4([10, 0, 0, 1]) },
        IfaceAddr { loopback: false, link_local: true, ip: IfaceIp::V4([10, 0, 0, 2]) },
        plain_v4([10, 9, 8, 7]),
    ];
    assert_eq!(select_address(&ifaces).unwrap(), [10, 9, 8, 7]);
}

#[test]
fn fails_when_no_interface_is_eligible() {
    let ifaces = vec![
        IfaceAddr { loopback: true, link_local: false, ip: IfaceIp::V4([127, 0, 0, 1]) },
        plain_v4([192, 168, 1, 4]),
        IfaceAddr { loopback: false, link_local: false, ip: IfaceIp::V6 },
    ];
    let e = select_address(&ifaces).unwrap_err();
    assert_eq!(e, SelectError::NoSuitableInterface);
    assert_eq!(e.message(), "Failed to select network interface");
}

#[test]
fn fails_on_empty_interface_list() {
    let e = select_address(&Vec::new()).unwrap_err();
    assert_eq!(e, SelectError::NoSuitableInterface);
}
