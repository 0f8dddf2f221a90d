use amallgam::text::{authority_is, decimal_string, is_local_url, user_id_from_path};
use amallgam::users::{check_domains, verify_domains_match};

#[test]
fn decimal_text_of_ports() {
    assert_eq!(decimal_string(0), "0");
    assert_eq!(decimal_string(7), "7");
    assert_eq!(decimal_string(8540), "8540");
    assert_eq!(decimal_string(65535), "65535");
}

#[test]
fn local_urls_match_host_and_port() {
    assert!(is_local_url("https://example.com/user/abc/", "example.com"));
    assert!(!is_local_url("https://other.org/user/abc/", "example.com"));
    assert!(is_local_url("http://localhost:8540/user/abc", "localhost:8540"));
    assert!(!is_local_url("http://localhost:8540/user/abc", "localhost"));
    // the default port is not part of the authority
    assert!(is_local_url("https://example.com:443/x", "example.com"));
    assert!(!is_local_url("not a url", "example.com"));
}

#[test]
fn user_id_is_the_last_path_segment() {
    assert_eq!(user_id_from_path("/user/abc/"), Some("abc".to_string()));
    assert_eq!(user_id_from_path("/user/abc"), Some("abc".to_string()));
    assert_eq!(user_id_from_path("/user/abc///"), Some("abc".to_string()));
    assert_eq!(user_id_from_path("/"), None);
    assert_eq!(user_id_from_path("abc"), None);
    assert_eq!(user_id_from_path(""), None);
    assert_eq!(user_id_from_path("/a/b/c/"), Some("c".to_string()));
}

#[test]
fn domains_match_by_domain_only() {
    assert!(verify_domains_match("https://example.com/a", "https://example.com/b/c").is_ok());
    assert!(verify_domains_match("https://example.com/a", "https://other.com/a").is_err());
    // IP hosts name no domain
    assert!(verify_domains_match("https://127.0.0.1/a", "https://10.0.0.1/").is_ok());
}

#[test]
fn authority_of_host_and_port() {
    assert!(authority_is("example.com", Some("example.com".to_string()), None));
    assert!(authority_is("localhost:8540", Some("localhost".to_string()), Some(8540)));
    assert!(!authority_is("localhost", Some("localhost".to_string()), Some(8540)));
    assert!(!authority_is("example.com", None, None));
}

#[test]
fn domain_check_on_given_domains() {
    assert!(check_domains(&Some("a.org".to_string()), &Some("a.org".to_string())).is_ok());
    assert!(check_domains(&Some("a.org".to_string()), &Some("b.org".to_string())).is_err());
    assert!(check_domains(&None, &None).is_ok());
    assert!(check_domains(&Some("a.org".to_string()), &None).is_err());
}
