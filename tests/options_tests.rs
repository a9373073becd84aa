use std::time::Duration;
use unai::options::TransportOptions;

#[test]
fn test_transport_options_builder() {
    let options = TransportOptions::new()
        .with_timeout(Duration::from_secs(30))
        .with_proxy("http://proxy.example.com".to_string())
        .with_header("X-Custom-Header".to_string(), "Value".to_string());

    match options {
        TransportOptions::Http {
            timeout,
            proxy,
            headers,
        } => {
            assert_eq!(timeout, Some(Duration::from_secs(30)));
            assert_eq!(proxy, Some("http://proxy.example.com".to_string()));

            let headers = headers.unwrap();
            assert_eq!(headers.get("X-Custom-Header"), Some(&"Value".to_string()));
        }
    }
}

#[test]
fn header_set_twice_keeps_last_value() {
    let options = TransportOptions::new()
        .with_header("A".to_string(), "1".to_string())
        .with_header("B".to_string(), "2".to_string())
        .with_header("A".to_string(), "3".to_string());
    match options {
        TransportOptions::Http { headers, timeout, proxy } => {
            assert_eq!(timeout, None);
            assert_eq!(proxy, None);
            let headers = headers.unwrap();
            assert_eq!(headers.get("A"), Some(&"3".to_string()));
            assert_eq!(headers.get("B"), Some(&"2".to_string()));
            assert_eq!(headers.get("C"), None);
            assert_eq!(headers.entries().len(), 2);
        }
    }
}

#[test]
fn default_transport_options_are_empty() {
    match TransportOptions::default() {
        TransportOptions::Http { timeout, proxy, headers } => {
            assert_eq!(timeout, None);
            assert_eq!(proxy, None);
            assert!(headers.is_none());
        }
    }
}
