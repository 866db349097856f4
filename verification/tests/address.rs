use netrat::address::Address;
use netrat::text::u16_to_string;

#[test]
fn test_full_address() {
    let addr = Address::from_str("192.168.1.1:8080").unwrap();
    assert_eq!(addr, Address { oct0: 192, oct1: 168, oct2: 1, oct3: 1, port: 8080 });
    assert_eq!(addr.to_text(), "192.168.1.1:8080");
}

#[test]
fn test_port_only() {
    let addr = Address::from_str("8080").unwrap();
    let full = Address::from_str("127.0.0.1:8080").unwrap();
    assert_eq!(addr, full);
    assert_eq!(addr.to_text(), "127.0.0.1:8080");
}

#[test]
fn test_localhost_with_port() {
    let addr = Address::from_str("localhost:8080").unwrap();
    let full = Address::from_str("127.0.0.1:8080").unwrap();
    assert_eq!(addr, full);
    assert_eq!(addr.to_text(), "127.0.0.1:8080");
}

#[test]
fn test_invalid() {
    let result = Address::from_str("not_an_address");
    assert!(result.is_err());
}

#[test]
fn empty_host_stands_for_loopback() {
    let addr = Address::from_str(":8080").unwrap();
    assert_eq!(addr, Address { oct0: 127, oct1: 0, oct2: 0, oct3: 1, port: 8080 });
}

#[test]
fn port_with_leading_zeros() {
    let addr = Address::from_str("localhost:080").unwrap();
    assert_eq!(addr.port, 80);
}

#[test]
fn octet_with_leading_zero_rejected() {
    assert!(Address::from_str("01.2.3.4:80").is_err());
}

#[test]
fn octet_out_of_range_rejected() {
    assert!(Address::from_str("1.2.3.300:80").is_err());
}

#[test]
fn port_out_of_range_rejected() {
    assert!(Address::from_str("99999").is_err());
    assert!(Address::from_str("1.2.3.4:65536").is_err());
}

#[test]
fn quad_without_port_rejected() {
    assert!(Address::from_str("1.2.3.4").is_err());
}

#[test]
fn unknown_host_name_rejected() {
    let result = Address::from_str("example.com:80");
    assert!(result.is_err());
    assert_eq!(result.unwrap_err(), "Could not parse as socket address");
}

#[test]
fn decimal_rendering_exact() {
    assert_eq!(u16_to_string(0), "0");
    assert_eq!(u16_to_string(7), "7");
    assert_eq!(u16_to_string(80), "80");
    assert_eq!(u16_to_string(8080), "8080");
    assert_eq!(u16_to_string(65535), "65535");
}

#[test]
fn extremes_round_trip() {
    let addr = Address::from_str("0.255.0.255:65535").unwrap();
    assert_eq!(addr, Address { oct0: 0, oct1: 255, oct2: 0, oct3: 255, port: 65535 });
    assert_eq!(addr.to_text(), "0.255.0.255:65535");
    let zero = Address { oct0: 0, oct1: 0, oct2: 0, oct3: 0, port: 0 };
    assert_eq!(zero.to_text(), "0.0.0.0:0");
    assert_eq!(Address::from_str("0.0.0.0:0").unwrap(), zero);
}
