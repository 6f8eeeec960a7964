use tv_tauri::subnets::{is_private_ipv4, local_subnet_prefixes, subnet_prefix, NetInterface};

fn v4(a: u8, b: u8, c: u8, d: u8) -> NetInterface {
    NetInterface { is_loopback: false, ipv4: Some((a, b, c, d)) }
}

#[test]
fn private_ranges() {
    assert!(is_private_ipv4((10, 0, 0, 1)));
    assert!(is_private_ipv4((10, 255, 3, 4)));
    assert!(!is_private_ipv4((172, 15, 0, 1)));
    assert!(is_private_ipv4((172, 16, 0, 1)));
    assert!(is_private_ipv4((172, 31, 255, 1)));
    assert!(!is_private_ipv4((172, 32, 0, 1)));
    assert!(is_private_ipv4((192, 168, 1, 20)));
    assert!(!is_private_ipv4((192, 169, 1, 20)));
    assert!(!is_private_ipv4((169, 254, 1, 1)));
    assert!(!is_private_ipv4((8, 8, 8, 8)));
}

#[test]
fn prefix_text() {
    assert_eq!(subnet_prefix((192, 168, 1, 20)), "192.168.1");
    assert_eq!(subnet_prefix((10, 0, 0, 9)), "10.0.0");
}

#[test]
fn discovery_skips_loopback_public_and_ipv6_and_dedups() {
    let ifaces = vec![
        NetInterface { is_loopback: true, ipv4: Some((127, 0, 0, 1)) },
        v4(192, 168, 1, 20),
        NetInterface { is_loopback: false, ipv4: None },
        v4(8, 8, 8, 8),
        v4(169, 254, 3, 3),
        v4(10, 1, 2, 3),
        v4(192, 168, 1, 99),
        v4(172, 20, 5, 1),
        NetInterface { is_loopback: true, ipv4: Some((10, 9, 9, 9)) },
    ];
    assert_eq!(local_subnet_prefixes(&ifaces), vec!["192.168.1", "10.1.2", "172.20.5"]);
}

#[test]
fn discovery_of_nothing() {
    assert_eq!(local_subnet_prefixes(&vec![]), Vec::<String>::new());
}
