use proxy_tunnel::endpoints::Proxy;
use proxy_tunnel::endpoints::Tunnel;
use proxy_tunnel::request::connect_request;
use proxy_tunnel::request::decimal_string;
use proxy_tunnel::request::handshake_string;
use proxy_tunnel::response::ResponseCursor;
use proxy_tunnel::strategy::Route;
use proxy_tunnel::strategy::fallback_route;
use proxy_tunnel::strategy::initial_route;
use proxy_tunnel::strategy::route_endpoint;
use proxy_tunnel::strategy::route_is_proxied;

#[test]
fn no_proxy_is_direct_and_writes_nothing() {
    let tunnel = Tunnel::new(String::from("example.com"), 80);
    let route = initial_route(false);
    assert_eq!(route, Route::Direct);
    assert!(!route_is_proxied(route));
    let handshake = handshake_string(route_is_proxied(route), &tunnel);
    assert_eq!(handshake.as_str(), "");
    let cursor = ResponseCursor::new(route_is_proxied(route));
    assert!(cursor.is_done());
}

#[test]
fn proxy_route_emits_exact_connect_line() {
    let tunnel = Tunnel::new(String::from("example.com"), 8080);
    let route = initial_route(true);
    assert_eq!(route, Route::Proxied);
    assert!(route_is_proxied(route));
    let handshake = handshake_string(route_is_proxied(route), &tunnel);
    assert_eq!(
        handshake.as_str(),
        "CONNECT example.com:8080 HTTP/1.1\r\n\r\n"
    );
}

#[test]
fn failed_proxy_falls_back_once_to_silent_direct() {
    let tunnel = Tunnel::new(String::from("host.test"), 443);
    let proxy = Proxy::new(String::from("proxy.test"), 3128);
    let first = initial_route(true);
    let (host, port) = route_endpoint(first, &tunnel, Some(&proxy));
    assert_eq!((host, port), ("proxy.test", 3128));
    let second = fallback_route(first).unwrap();
    assert_eq!(second, Route::Direct);
    assert!(!route_is_proxied(second));
    let (host, port) = route_endpoint(second, &tunnel, Some(&proxy));
    assert_eq!((host, port), ("host.test", 443));
    let handshake = handshake_string(route_is_proxied(second), &tunnel);
    assert_eq!(handshake.as_str(), "");
    assert_eq!(fallback_route(second), None);
}

#[test]
fn connect_request_renders_host_and_port() {
    let tunnel = Tunnel::new(String::from("10.0.0.7"), 1);
    let line = connect_request(&tunnel);
    assert_eq!(line.as_str(), "CONNECT 10.0.0.7:1 HTTP/1.1\r\n\r\n");
}

#[test]
fn ports_render_in_decimal_without_leading_zeros() {
    assert_eq!(decimal_string(0).as_str(), "0");
    assert_eq!(decimal_string(7).as_str(), "7");
    assert_eq!(decimal_string(80).as_str(), "80");
    assert_eq!(decimal_string(443).as_str(), "443");
    assert_eq!(decimal_string(65535).as_str(), "65535");
}
