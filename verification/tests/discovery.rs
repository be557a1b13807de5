use ddns_notify::discovery::{discovered_ip, DISCOVERY_URL};
use ddns_notify::error::Error;

#[test]
fn discovery_endpoint() {
    assert_eq!(DISCOVERY_URL, "https://api.ipify.org");
}

#[test]
fn discovered_ip_is_the_trimmed_body() {
    assert_eq!(discovered_ip(Ok(String::from("198.51.100.7"))), Ok(String::from("198.51.100.7")));
    assert_eq!(
        discovered_ip(Ok(String::from("  198.51.100.7\r\n"))),
        Ok(String::from("198.51.100.7"))
    );
}

#[test]
fn empty_body_is_an_empty_response() {
    assert_eq!(discovered_ip(Ok(String::new())), Err(Error::EmptyResponseError));
}

#[test]
fn body_of_whitespace_is_an_empty_response() {
    assert_eq!(discovered_ip(Ok(String::from(" \n\t"))), Err(Error::EmptyResponseError));
}

#[test]
fn failed_call_is_a_network_error() {
    assert_eq!(
        discovered_ip(Err(String::from("dns error"))),
        Err(Error::NetworkError(String::from("dns error")))
    );
}
