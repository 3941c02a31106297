use frl_proxy::config::NetworkConfig;
use frl_proxy::upstream::{
    resolve_remote_host, select_transport, upstream_uri, Transport, UpstreamError,
    DEFAULT_TIMEOUT_MILLIS,
};

fn net(use_proxy: bool, use_basic_auth: bool) -> NetworkConfig {
    NetworkConfig {
        use_corporate_proxy: use_proxy,
        corporate_proxy_host: "proxy.corp".to_string(),
        corporate_proxy_port: 3128,
        use_basic_auth,
        corporate_proxy_username: "user".to_string(),
        corporate_proxy_password: "secret".to_string(),
    }
}

#[test]
fn resolve_explicit_secure_scheme_and_port() {
    let r = resolve_remote_host("https://cops.example.com:8443").unwrap();
    assert_eq!(r.0, true);
    assert_eq!(r.1, "cops.example.com:8443");
}

#[test]
fn resolve_plain_scheme() {
    let r = resolve_remote_host("http://cops.example.com").unwrap();
    assert_eq!(r.0, false);
    assert_eq!(r.1, "cops.example.com");
}

#[test]
fn resolve_missing_scheme_defaults_to_plain() {
    let r = resolve_remote_host("cops.example.com").unwrap();
    assert_eq!(r.0, false);
    assert_eq!(r.1, "cops.example.com");
}

#[test]
fn resolve_unparsable_host_is_fatal() {
    assert!(resolve_remote_host("").is_none());
    assert!(resolve_remote_host("http://").is_none());
}

#[test]
fn transport_prefers_corporate_proxy() {
    match select_transport(&net(true, true), true) {
        Transport::ViaCorporateProxy { proxy_host, proxy_port, auth } => {
            assert_eq!(proxy_host, "proxy.corp");
            assert_eq!(proxy_port, 3128);
            let (user, password) = auth.unwrap();
            assert_eq!(user, "user");
            assert_eq!(password, "secret");
        }
        _ => panic!("expected the corporate-proxy transport"),
    }
}

#[test]
fn transport_proxy_without_auth() {
    match select_transport(&net(true, false), false) {
        Transport::ViaCorporateProxy { auth, .. } => assert!(auth.is_none()),
        _ => panic!("expected the corporate-proxy transport"),
    }
}

#[test]
fn transport_direct_variants() {
    assert!(matches!(select_transport(&net(false, false), true), Transport::DirectSecure));
    assert!(matches!(select_transport(&net(false, false), false), Transport::Direct));
}

#[test]
fn proxy_url_is_plain_http() {
    let t = select_transport(&net(true, false), true);
    assert_eq!(t.proxy_url().unwrap(), "http://proxy.corp:3128");
    assert!(Transport::Direct.proxy_url().is_none());
    assert!(Transport::DirectSecure.proxy_url().is_none());
}

#[test]
fn outbound_address_keeps_scheme_host_and_path() {
    assert_eq!(
        upstream_uri(true, "cops.example.com:8443", "/asnp/v2"),
        "https://cops.example.com:8443/asnp/v2"
    );
    assert_eq!(upstream_uri(false, "cops.example.com", "/"), "http://cops.example.com/");
}

#[test]
fn deadline_is_just_under_a_minute() {
    assert_eq!(DEFAULT_TIMEOUT_MILLIS, 59000);
}

#[test]
fn error_texts() {
    assert_eq!(
        UpstreamError::Timeout(1500).error_message(),
        "Timeout - no response received in 1500 milliseconds"
    );
    assert_eq!(UpstreamError::Network.error_message(), "Network error");
    assert_eq!(
        UpstreamError::ProxyUrlParse.error_message(),
        "Cannot parse upstream proxy URL"
    );
    assert_eq!(
        UpstreamError::ConnectorBuild.error_message(),
        "Failed to create proxy connector"
    );
}

#[test]
fn timeout_text_renders_decimal_bounds() {
    assert_eq!(
        UpstreamError::Timeout(0).error_message(),
        "Timeout - no response received in 0 milliseconds"
    );
    assert_eq!(
        UpstreamError::Timeout(u64::MAX).error_message(),
        "Timeout - no response received in 18446744073709551615 milliseconds"
    );
}
