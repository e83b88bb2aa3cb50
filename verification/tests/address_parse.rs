use rkvm_client::address::{AddressParseError, Server, ServerAddress};

#[test]
fn parse_plain_host_and_port() {
    let a = ServerAddress::parse("localhost:5000").unwrap();
    assert_eq!(a.host, "localhost");
    assert_eq!(a.port, 5000);
}

#[test]
fn parse_reproduces_both_segments_exactly() {
    let a = ServerAddress::parse("some.server.example:443").unwrap();
    assert_eq!(a.host, "some.server.example");
    assert_eq!(a.port, 443);
}

#[test]
fn parse_empty_host_is_permitted() {
    let a = ServerAddress::parse(":80").unwrap();
    assert_eq!(a.host, "");
    assert_eq!(a.port, 80);
}

#[test]
fn parse_largest_port() {
    let a = ServerAddress::parse("h:65535").unwrap();
    assert_eq!(a.port, 65535);
}

#[test]
fn parse_leading_zeros_in_port() {
    let a = ServerAddress::parse("h:00080").unwrap();
    assert_eq!(a.port, 80);
}

#[test]
fn parse_rejects_missing_colon() {
    assert_eq!(
        ServerAddress::parse("justahost").unwrap_err(),
        AddressParseError::Invalid
    );
}

#[test]
fn parse_rejects_empty_port() {
    assert_eq!(ServerAddress::parse("host:").unwrap_err(), AddressParseError::Invalid);
}

#[test]
fn parse_rejects_non_numeric_port() {
    assert_eq!(ServerAddress::parse("host:http").unwrap_err(), AddressParseError::Invalid);
}

#[test]
fn parse_rejects_mixed_port() {
    assert_eq!(ServerAddress::parse("host:12x4").unwrap_err(), AddressParseError::Invalid);
}

#[test]
fn parse_rejects_overflowing_port() {
    assert_eq!(ServerAddress::parse("host:65536").unwrap_err(), AddressParseError::Invalid);
    assert_eq!(
        ServerAddress::parse("host:99999999999999").unwrap_err(),
        AddressParseError::Invalid
    );
}

#[test]
fn parse_rejects_extraneous_segment() {
    assert_eq!(ServerAddress::parse("host:1:2").unwrap_err(), AddressParseError::Extraneous);
}

#[test]
fn parse_second_colon_with_bad_port_is_invalid() {
    // The port segment between the first two colons does not parse, so
    // the failure is reported as an invalid description, not as
    // extraneous data.
    assert_eq!(ServerAddress::parse("host:x:2").unwrap_err(), AddressParseError::Invalid);
}

#[test]
fn server_entry_carries_address_and_certificate_path() {
    let address = ServerAddress::parse("kvm.local:4000").unwrap();
    let server = Server {
        server_address: address.clone(),
        certificate_path: String::from("/etc/rkvm/certificate.pem"),
    };
    assert_eq!(server.server_address.host, "kvm.local");
    assert_eq!(server.server_address.port, 4000);
    assert_eq!(server.certificate_path, "/etc/rkvm/certificate.pem");
}

#[test]
fn parse_empty_string_fails() {
    assert_eq!(ServerAddress::parse("").unwrap_err(), AddressParseError::Invalid);
}
