use std::sync::Arc;

use hyper_util::client::legacy::connect::HttpConnector;
use hyper_util::client::legacy::Client;
use hyper_util::rt::TokioExecutor;
use reverse_proxy_service::{
    builder, Identity, OneshotService, ProxyError, ReplaceAll, ReplaceN, ReusedService, Static,
    Step,
};

fn http_client() -> Client<HttpConnector, String> {
    Client::builder(TokioExecutor::new()).build_http()
}

fn incoming(path_and_query: &str) -> http::Uri {
    format!("https://myserver.com{}", path_and_query).parse().unwrap()
}

fn uri_text(r: &Option<http::Uri>) -> String {
    r.as_ref().unwrap().to_string()
}

#[test]
fn rebuilt_uri_keeps_query() {
    let mut svc =
        OneshotService::from(http_client(), "http", "example.com:1234", ReplaceAll("foo", "goo"))
            .unwrap();
    let (unit, uri) = svc.call(&incoming("/foo?greeting=good%20day"));
    assert!(unit.is_dispatching());
    let uri = uri.unwrap();
    assert_eq!(uri.path(), "/goo");
    assert_eq!(uri.query(), Some("greeting=good%20day"));
    assert_eq!(uri.to_string(), "http://example.com:1234/goo?greeting=good%20day");
}

#[test]
fn rebuilt_uri_without_query() {
    let mut svc =
        OneshotService::from(http_client(), "https", "example.net", Static("/bar")).unwrap();
    let (_, uri) = svc.call(&incoming("/foo"));
    assert_eq!(uri_text(&uri), "https://example.net/bar");
    assert_eq!(uri.unwrap().query(), None);
}

#[test]
fn empty_rewritten_path_stands_for_root() {
    let mut svc =
        OneshotService::from(http_client(), "http", "example.com", reverse_proxy_service::TrimPrefix("/foo"))
            .unwrap();
    let (_, uri) = svc.call(&incoming("/foo"));
    assert_eq!(uri_text(&uri), "http://example.com/");
}

#[test]
fn invalid_authority_makes_no_service() {
    let r = OneshotService::from(http_client(), "http", "exa mple.com", Identity);
    assert!(r.is_err());
    let r = OneshotService::from(http_client(), "http", "", Identity);
    assert!(r.is_err());
    let r = ReusedService::from(Arc::new(http_client()), "http", "example.com/path", Identity);
    assert!(r.is_err());
    assert!(builder(http_client(), "http", "a b").is_err());
    assert!(builder(http_client(), "http", "example.com:1234").is_ok());
}

#[test]
fn invalid_scheme_makes_no_service() {
    let r = OneshotService::from(http_client(), "ht tp", "example.com", Identity);
    assert!(r.is_err());
}

#[test]
fn forbidden_path_is_invalid_uri_and_not_sent() {
    let mut svc =
        OneshotService::from(http_client(), "http", "example.com", Static("/a b")).unwrap();
    let (mut unit, uri) = svc.call(&incoming("/foo?x=1"));
    assert!(uri.is_none());
    assert!(!unit.is_dispatching());
    match unit.poll_step() {
        Step::Failed(e) => {
            assert!(matches!(e, ProxyError::InvalidUri(_)));
            assert_eq!(e.status_code(), 500);
            assert!(e.message().starts_with("Invalid uri: "));
        }
        Step::AwaitResponse => panic!("a refused path must not be sent"),
    }
    assert!(unit.is_completed());
}

#[test]
fn path_without_leading_slash_is_invalid_uri() {
    let mut svc =
        OneshotService::from(http_client(), "http", "example.com", reverse_proxy_service::TrimPrefix("/foo"))
            .unwrap();
    let (unit, uri) = svc.call(&incoming("/foobar"));
    assert!(uri.is_none());
    assert!(!unit.is_dispatching());
}

#[test]
fn builder_services_are_independent() {
    let b = builder(http_client(), "http", "example.com:1234").unwrap();
    let mut a = b.build(ReplaceAll("foo", "baz"));
    let mut c = b.build(ReplaceN("foo", "baz", 1));

    let (_, ua) = a.call(&incoming("/foo/bar/foo"));
    let (_, uc) = c.call(&incoming("/foo/bar/foo"));
    assert_eq!(uri_text(&ua), "http://example.com:1234/baz/bar/baz");
    assert_eq!(uri_text(&uc), "http://example.com:1234/baz/bar/foo");

    let (_, uc) = c.call(&incoming("/foo/bar/foo"));
    let (_, ua) = a.call(&incoming("/foo/bar/foo"));
    assert_eq!(uri_text(&ua), "http://example.com:1234/baz/bar/baz");
    assert_eq!(uri_text(&uc), "http://example.com:1234/baz/bar/foo");

    let mut copy = a.clone();
    let (_, u) = copy.call(&incoming("/foo"));
    assert_eq!(uri_text(&u), "http://example.com:1234/baz");
}

#[test]
fn failed_rewrite_completes_on_first_poll() {
    let err = http::Uri::builder().path_and_query("no slash").build().unwrap_err();
    let text = format!("Invalid uri: {}", err);
    let mut unit = reverse_proxy_service::RevProxyFuture::rewrite_failed(err);
    assert!(!unit.is_completed());
    match unit.poll_step() {
        Step::Failed(e) => {
            assert!(matches!(e, ProxyError::InvalidUri(_)));
            assert_eq!(e.message(), text);
        }
        Step::AwaitResponse => panic!("the failure comes out of the first poll"),
    }
    assert!(unit.is_completed());
}

#[test]
fn dispatching_call_waits_then_completes() {
    let mut unit = reverse_proxy_service::RevProxyFuture::dispatching();
    assert!(matches!(unit.poll_step(), Step::AwaitResponse));
    assert!(unit.is_dispatching());
    let r = unit.complete::<u32>(Ok(7));
    assert!(matches!(r, Ok(7)));
    assert!(unit.is_completed());
}

#[test]
fn rewritten_path_for_backend_route() {
    let mut svc =
        OneshotService::from(http_client(), "http", "127.0.0.1:8080", ReplaceAll("foo", "goo"))
            .unwrap();
    let (_, uri) = svc.call(&incoming("/foo/bar/foo/baz/foo"));
    assert_eq!(uri.unwrap().path(), "/goo/bar/goo/baz/goo");
    let (_, uri) = svc.call(&incoming("/foo/bar/foo/baz"));
    assert_eq!(uri.unwrap().path(), "/goo/bar/goo/baz");
}

#[test]
fn unreachable_backend_is_request_failed() {
    let rt = tokio::runtime::Builder::new_current_thread().enable_all().build().unwrap();
    rt.block_on(async {
        let listener = tokio::net::TcpListener::bind("127.0.0.1:0").await.unwrap();
        let addr = listener.local_addr().unwrap().to_string();
        drop(listener);
        let mut svc =
            OneshotService::from(http_client(), "http", &addr, ReplaceAll("foo", "goo")).unwrap();
        let (mut unit, uri) = svc.call(&incoming("/foo"));
        let req =
            http::Request::builder().method("GET").uri(uri.unwrap()).body(String::new()).unwrap();
        assert!(matches!(unit.poll_step(), Step::AwaitResponse));
        let res = svc.client().request(req).await;
        match unit.complete(res) {
            Err(e) => {
                assert!(matches!(e, ProxyError::RequestFailed(_)));
                assert!(e.message().starts_with("Request failed: "));
            }
            Ok(_) => panic!("nothing listens there"),
        }
        assert!(unit.is_completed());
    });
}

#[test]
fn reused_defaults_set_scheme() {
    let mut svc =
        ReusedService::http_default(Arc::new(http_client()), "example.com:81", Static("/x"))
            .unwrap();
    let (_, uri) = svc.call(&incoming("/foo?a=1"));
    assert_eq!(uri_text(&uri), "http://example.com:81/x?a=1");
    assert!(ReusedService::http_default(Arc::new(http_client()), "", Identity).is_err());

    let tls: Client<hyper_tls::HttpsConnector<HttpConnector>, String> =
        Client::builder(TokioExecutor::new()).build(hyper_tls::HttpsConnector::new());
    let mut svc = ReusedService::https_default(Arc::new(tls), "example.org", Identity).unwrap();
    let (_, uri) = svc.call(&incoming("/foo"));
    assert_eq!(uri_text(&uri), "https://example.org/foo");
}
