use ezsockets::config::ClientConfig;

type Config = ClientConfig<()>;

#[test]
fn parse_accepts_urls_and_refuses_garbage() {
    assert!(Config::parse("ws://localhost:8080/websocket").is_some());
    assert!(Config::parse("not a url").is_none());
}

#[test]
fn defaults_are_unlimited_attempts_and_five_seconds() {
    let config = Config::parse("ws://localhost:8080/websocket").unwrap();
    assert_eq!(config.initial_connect_attempts(), usize::MAX);
    assert_eq!(config.reconnect_attempts(), usize::MAX);
    assert_eq!(*config.interval(), std::time::Duration::from_secs(5));
    assert_eq!(config.header_count(), 0);
    assert!(config.socket_config_ref().is_none());
    assert_eq!(config.connect_url(), "ws://localhost:8080/websocket");
}

#[test]
fn setters_change_one_field() {
    let config = Config::parse("ws://example.com/").unwrap()
        .max_initial_connect_attempts(3)
        .max_reconnect_attempts(7)
        .reconnect_interval(std::time::Duration::from_millis(250))
        .socket_config(());
    assert_eq!(config.initial_connect_attempts(), 3);
    assert_eq!(config.reconnect_attempts(), 7);
    assert_eq!(*config.interval(), std::time::Duration::from_millis(250));
    assert!(config.socket_config_ref().is_some());
}

#[test]
fn basic_authorization_header() {
    let config = Config::parse("ws://example.com/").unwrap().basic("user", "pass");
    let value = config.headers().get("authorization").unwrap();
    assert_eq!(value.to_str().unwrap(), "Basic dXNlcjpwYXNz");
    assert_eq!(config.header_count(), 1);
}

#[test]
fn bearer_replaces_basic() {
    let config = Config::parse("ws://example.com/").unwrap()
        .basic("user", "pass")
        .bearer("token123");
    assert_eq!(config.headers().get("authorization").unwrap(), "Bearer token123");
    assert_eq!(config.headers().len(), 1);
}

#[test]
fn custom_headers_are_stored_in_lower_case() {
    let config = Config::parse("ws://example.com/").unwrap()
        .header("X-Custom", "value")
        .header("x-other", "v2");
    assert_eq!(config.headers().get("x-custom").unwrap(), "value");
    assert_eq!(config.headers().get("X-Other").unwrap(), "v2");
    assert_eq!(config.header_count(), 2);
    let names: Vec<&str> = config.headers().keys().map(|k| k.as_str()).collect();
    assert!(names.contains(&"x-custom"));
}

#[test]
fn query_parameters_are_appended() {
    let config = Config::parse("ws://localhost:8080/websocket").unwrap()
        .query_parameter("name", "a b")
        .query_parameter("id", "7");
    assert_eq!(config.connect_url(), "ws://localhost:8080/websocket?name=a+b&id=7");
}

#[test]
fn urls_are_kept_as_their_serialization() {
    let config = Config::new("WS://Example.COM:8080");
    assert_eq!(config.connect_url(), "ws://example.com:8080/");
    let parsed = Config::parse("ws://localhost/x").unwrap();
    assert_eq!(parsed.connect_url(), "ws://localhost/x");
}

#[test]
fn query_parameters_go_before_the_fragment() {
    let config = Config::parse("ws://localhost/chat#room").unwrap()
        .query_parameter("user", "ü");
    assert_eq!(config.connect_url(), "ws://localhost/chat?user=%C3%BC#room");
}

#[test]
fn handshake_headers_with_configured_overrides() {
    let config = Config::parse("ws://example.com/").unwrap()
        .header("Host", "other.example")
        .bearer("t");
    let headers = config.handshake_headers("example.com", "dGhlIHNhbXBsZSBub25jZQ==");
    assert_eq!(headers.get("host").unwrap(), "other.example");
    assert_eq!(headers.get("connection").unwrap(), "Upgrade");
    assert_eq!(headers.get("upgrade").unwrap(), "websocket");
    assert_eq!(headers.get("sec-websocket-version").unwrap(), "13");
    assert_eq!(headers.get("sec-websocket-key").unwrap(), "dGhlIHNhbXBsZSBub25jZQ==");
    assert_eq!(headers.get("authorization").unwrap(), "Bearer t");
    assert_eq!(headers.keys_len(), 6);
}

#[test]
fn handshake_headers_defaults() {
    let config = Config::parse("ws://example.com/").unwrap();
    let headers = config.handshake_headers("example.com", "k");
    assert_eq!(headers.get("host").unwrap(), "example.com");
    assert_eq!(headers.keys_len(), 5);
}

#[test]
fn connect_headers_take_the_host_of_the_url() {
    let config = Config::parse("ws://chat.example.org:9001/ws?room=1").unwrap()
        .header("X-Trace", "on");
    let headers = config.connect_headers("dGhlIHNhbXBsZSBub25jZQ==").unwrap();
    assert_eq!(headers.get("host").unwrap(), "chat.example.org");
    assert_eq!(headers.get("connection").unwrap(), "Upgrade");
    assert_eq!(headers.get("upgrade").unwrap(), "websocket");
    assert_eq!(headers.get("sec-websocket-version").unwrap(), "13");
    assert_eq!(headers.get("sec-websocket-key").unwrap(), "dGhlIHNhbXBsZSBub25jZQ==");
    assert_eq!(headers.get("x-trace").unwrap(), "on");
    assert_eq!(headers.keys_len(), 6);
}

#[test]
fn connect_headers_write_ip_hosts_as_url_does() {
    let v4 = Config::parse("ws://127.0.0.1:8080/").unwrap();
    assert_eq!(v4.connect_headers("k").unwrap().get("host").unwrap(), "127.0.0.1");
    let v6 = Config::parse("ws://[::1]:8080/").unwrap();
    assert_eq!(v6.connect_headers("k").unwrap().get("host").unwrap(), "[::1]");
}

#[test]
fn connect_headers_need_a_host() {
    let config = Config::parse("unix:/run/socket").unwrap();
    assert!(config.connect_headers("k").is_none());
}

#[test]
fn configured_host_header_replaces_the_url_host() {
    let config = Config::parse("ws://example.com/").unwrap().header("Host", "proxy.example");
    let headers = config.connect_headers("k").unwrap();
    assert_eq!(headers.get("host").unwrap(), "proxy.example");
    assert_eq!(headers.keys_len(), 5);
}

#[test]
fn try_query_parameter_appends_like_query_parameter() {
    let config = Config::parse("ws://localhost/chat").unwrap()
        .try_query_parameter("a", "1 2")
        .ok()
        .unwrap();
    assert_eq!(config.connect_url(), "ws://localhost/chat?a=1+2");
    assert_eq!(config.header_count(), 0);
}
