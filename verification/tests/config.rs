use fast_down_c::config::{parse_proxy, parse_write_method, Config, IpAddress, Proxy, WriteMethod};

fn header_names(c: &Config) -> Vec<(String, String)> {
    let mut v = c.headers.clone();
    v.sort();
    v
}

#[test]
fn new_config_sets_nothing() {
    let c = Config::new();
    assert_eq!(c.threads, None);
    assert!(c.proxy.is_none());
    assert!(c.headers.is_empty());
    assert!(c.local_address.is_empty());
    assert_eq!(c.write_method, None);
    let d = Config::default();
    assert_eq!(d.retry_times, None);
}

#[test]
fn proxy_texts() {
    assert!(matches!(parse_proxy("no"), Proxy::No));
    assert!(matches!(parse_proxy("system"), Proxy::System));
    match parse_proxy("socks5://127.0.0.1:1080") {
        Proxy::Custom(s) => assert_eq!(s, "socks5://127.0.0.1:1080"),
        _ => panic!("expected a custom proxy"),
    }
    assert!(matches!(parse_proxy("No"), Proxy::Custom(_)));
}

#[test]
fn write_method_texts() {
    assert_eq!(parse_write_method("std"), WriteMethod::Std);
    assert_eq!(parse_write_method("mmap"), WriteMethod::Mmap);
    assert_eq!(parse_write_method(""), WriteMethod::Mmap);
}

#[test]
fn setters_touch_one_field() {
    let mut c = Config::new();
    c.set_threads(8);
    c.set_proxy("no");
    c.set_min_chunk_size(1024);
    c.set_write_buffer_size(2048);
    c.set_write_queue_cap(16);
    c.set_retry_gap_ms(250);
    c.set_pull_timeout_ms(9000);
    c.set_accept_invalid_certs(true);
    c.set_accept_invalid_hostnames(false);
    c.set_write_method("std");
    c.set_retry_times(3);
    c.set_max_speculative(2);
    c.set_chunk_window(4096);
    assert_eq!(c.threads, Some(8));
    assert!(matches!(c.proxy, Some(Proxy::No)));
    assert_eq!(c.min_chunk_size, Some(1024));
    assert_eq!(c.write_buffer_size, Some(2048));
    assert_eq!(c.write_queue_cap, Some(16));
    assert_eq!(c.retry_gap_ms, Some(250));
    assert_eq!(c.pull_timeout_ms, Some(9000));
    assert_eq!(c.accept_invalid_certs, Some(true));
    assert_eq!(c.accept_invalid_hostnames, Some(false));
    assert_eq!(c.write_method, Some(WriteMethod::Std));
    assert_eq!(c.retry_times, Some(3));
    assert_eq!(c.max_speculative, Some(2));
    assert_eq!(c.chunk_window, Some(4096));
}

#[test]
fn header_insert_replaces_and_remove_reports() {
    let mut c = Config::new();
    c.insert_header("Accept".to_string(), "*/*".to_string());
    c.insert_header("User-Agent".to_string(), "a".to_string());
    c.insert_header("Accept".to_string(), "text/html".to_string());
    assert_eq!(
        header_names(&c),
        vec![
            ("Accept".to_string(), "text/html".to_string()),
            ("User-Agent".to_string(), "a".to_string()),
        ]
    );
    assert!(c.remove_header("Accept"));
    assert!(!c.remove_header("Accept"));
    assert_eq!(header_names(&c), vec![("User-Agent".to_string(), "a".to_string())]);
    c.clear_headers();
    assert!(c.headers.is_empty());
}

#[test]
fn local_addresses_add_and_remove() {
    let mut c = Config::new();
    let a = IpAddress::V4(0x7f000001);
    let b = IpAddress::V6(1);
    assert!(c.add_local_address(Some(a)));
    assert!(c.add_local_address(Some(b)));
    assert!(c.add_local_address(Some(a)));
    assert!(!c.add_local_address(None));
    assert_eq!(c.local_address, vec![a, b, a]);
    assert!(c.remove_local_address(Some(a)));
    assert_eq!(c.local_address, vec![b]);
    assert!(c.remove_local_address(Some(a)));
    assert_eq!(c.local_address, vec![b]);
    assert!(!c.remove_local_address(None));
    c.clear_local_addresses();
    assert!(c.local_address.is_empty());
}
