use admint::addr::parse_hardware_address;
use admint::addr::parse_ipv4_address;
use admint::addr::parse_socket_address;

#[test]
fn mac_accepts_three_notations() {
    let colon = parse_hardware_address("aa:bb:cc:dd:ee:ff").expect("colon notation");
    let dash = parse_hardware_address("aa-bb-cc-dd-ee-ff").expect("dash notation");
    let dot = parse_hardware_address("aabb.ccdd.eeff").expect("dot notation");
    assert_eq!(colon, dash);
    assert_eq!(colon, dot);
    assert_eq!(colon.to_text(), "aa:bb:cc:dd:ee:ff");
}

#[test]
fn mac_is_case_insensitive() {
    let lower = parse_hardware_address("aa:bb:cc:dd:ee:0f").unwrap();
    let upper = parse_hardware_address("AA:BB:CC:DD:EE:0F").unwrap();
    assert_eq!(lower, upper);
    assert_eq!(upper.to_text(), "aa:bb:cc:dd:ee:0f");
}

#[test]
fn mac_rejects_other_shapes() {
    assert!(parse_hardware_address("aabbccddeeff").is_none());
    assert!(parse_hardware_address("aa:bb:cc:dd:ee:gg").is_none());
    assert!(parse_hardware_address("aa:bb:cc:dd:ee").is_none());
    assert!(parse_hardware_address("aa:bb:cc:dd:ee:ff:00").is_none());
    assert!(parse_hardware_address("aabb.ccdd.eefg").is_none());
    assert!(parse_hardware_address("aabb-ccdd-eeff").is_none());
    assert!(parse_hardware_address("aa:bb-cc:dd:ee:ff").is_none());
    assert!(parse_hardware_address("").is_none());
}

#[test]
fn ipv4_accepts_dotted_decimal() {
    let ip = parse_ipv4_address("192.0.2.1").expect("dotted decimal");
    assert_eq!(ip.to_text(), "192.0.2.1");
    let ip = parse_ipv4_address("0.0.0.0").expect("all zero");
    assert_eq!(ip.to_text(), "0.0.0.0");
    let ip = parse_ipv4_address("255.255.255.255").expect("all max");
    assert_eq!(ip.to_text(), "255.255.255.255");
}

#[test]
fn ipv4_rejects_malformed_text() {
    assert!(parse_ipv4_address("192.0.2").is_none());
    assert!(parse_ipv4_address("192.0.2.1.9").is_none());
    assert!(parse_ipv4_address("192.0.2.256").is_none());
    assert!(parse_ipv4_address("192.0.2.").is_none());
    assert!(parse_ipv4_address(".0.2.1").is_none());
    assert!(parse_ipv4_address("192.0.2.01").is_none());
    assert!(parse_ipv4_address("192.0.2.x").is_none());
    assert!(parse_ipv4_address("").is_none());
}

#[test]
fn socket_address_accepts_ip_and_port() {
    let a = parse_socket_address("10.0.0.5:9999").expect("ip:port");
    assert_eq!(a.ip.to_text(), "10.0.0.5");
    assert_eq!(a.port, 9999);
    assert_eq!(a.to_text(), "10.0.0.5:9999");
    let a = parse_socket_address("0.0.0.0:0").expect("zero port");
    assert_eq!(a.port, 0);
    let a = parse_socket_address("1.2.3.4:65535").expect("max port");
    assert_eq!(a.port, 65535);
}

#[test]
fn socket_address_rejects_malformed_text() {
    assert!(parse_socket_address("10.0.0.5").is_none());
    assert!(parse_socket_address("10.0.0.5:").is_none());
    assert!(parse_socket_address(":9999").is_none());
    assert!(parse_socket_address("10.0.0.5:65536").is_none());
    assert!(parse_socket_address("10.0.0.5:09999").is_none());
    assert!(parse_socket_address("10.0.0:9999").is_none());
    assert!(parse_socket_address("10.0.0.5:99x9").is_none());
}
