use anaheim::http_server::{bind_address, first_address, AddressError, Config};

#[test]
fn bind_address_text() {
    let c = Config { host: "127.0.0.1".to_string(), port: 0 };
    assert_eq!(bind_address(&c), "127.0.0.1:0");
    let c = Config { host: "".to_string(), port: 0 };
    assert_eq!(bind_address(&c), ":0");
    let c = Config { host: "::1".to_string(), port: 65535 };
    assert_eq!(bind_address(&c), "::1:65535");
    let c = Config { host: "localhost".to_string(), port: 8080 };
    assert_eq!(bind_address(&c), format!("{}:{}", "localhost", 8080));
}

#[test]
fn address_text_recovers_config() {
    let c = Config { host: "::1".to_string(), port: 443 };
    let text = bind_address(&c);
    let (host, port) = text.rsplit_once(':').unwrap();
    assert_eq!(host, "::1");
    assert_eq!(port.parse::<u16>().unwrap(), 443);
}

#[test]
fn first_address_choice() {
    assert_eq!(first_address::<u32>(vec![]), Err(AddressError::Unresolved));
    assert_eq!(first_address(vec![7, 8]), Ok(7));
    assert_eq!(AddressError::Unresolved.message(), "Error parsing bind host/port");
}
