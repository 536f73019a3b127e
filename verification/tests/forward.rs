use ars_proxy::conf::Conf;
use ars_proxy::forward::{fail, proxy, relay, request, Dispatch, Failure, ForwardError, Reply};
use ars_proxy::forward::FAILURE_STATUS;
use hyper::header::HeaderValue;
use hyper::{HeaderMap, Method, Uri};

fn conf() -> Conf {
    Conf {
        local_port: 8080,
        remote_url: "example.internal".to_string(),
        remote_port: 9090,
        https_crt: None,
        https_crt_pass_file: None,
        to_https: false,
    }
}

fn headers(fields: &[(&'static str, &str)]) -> HeaderMap<HeaderValue> {
    let mut map = HeaderMap::new();
    for (name, value) in fields.iter() {
        map.append(*name, HeaderValue::from_str(value).unwrap());
    }
    map
}

fn dispatched<B>(res: Result<Dispatch<B>, Failure>) -> Dispatch<B> {
    match res {
        Ok(dispatch) => dispatch,
        Err(failure) => panic!("not forwarded: {}", failure.notice),
    }
}

fn failed<B>(res: Result<Dispatch<B>, Failure>) -> Failure {
    match res {
        Ok(dispatch) => panic!("forwarded to {}", dispatch.url),
        Err(failure) => failure,
    }
}

#[test]
fn get_is_forwarded_to_the_upstream() {
    let inbound = headers(&[("host", "localhost:8080"), ("accept", "*/*")]);
    let dispatch = dispatched(proxy(
        &conf(),
        "2024-05-01 12:00:00",
        Method::GET,
        "/foo?x=1",
        inbound,
        "the body",
    ));
    assert_eq!(dispatch.notice, "[2024-05-01 12:00:00][INFO] GET /foo?x=1");
    assert_eq!(dispatch.method, "GET");
    assert_eq!(dispatch.url, "http://example.internal:9090/foo?x=1");
    let outbound = dispatch.outbound;
    assert_eq!(outbound.method, Method::GET);
    assert_eq!(outbound.uri, "http://example.internal:9090/foo?x=1".parse::<Uri>().unwrap());
    assert_eq!(outbound.uri.scheme_part().unwrap().as_str(), "http");
    assert_eq!(outbound.uri.host(), Some("example.internal"));
    assert_eq!(outbound.uri.port_part().unwrap().as_u16(), 9090);
    assert_eq!(outbound.uri.path(), "/foo");
    assert_eq!(outbound.uri.query(), Some("x=1"));
    assert_eq!(outbound.headers.get("host").unwrap(), "example.internal:9090");
    assert_eq!(outbound.headers.get("accept").unwrap(), "*/*");
    assert_eq!(outbound.headers.len(), 2);
    assert_eq!(outbound.body, "the body");
}

#[test]
fn upstream_response_reaches_the_client_unchanged() {
    let response = (200u16, vec![("content-type", "text/plain")], b"hello".to_vec());
    let reply = relay(
        "2024-05-01 12:00:01",
        "GET",
        "http://example.internal:9090/foo?x=1",
        Ok(response.clone()),
    );
    match reply {
        Reply::Upstream(relayed) => assert_eq!(relayed, response),
        Reply::Failure(failure) => panic!("failure: {}", failure.notice),
    }
}

#[test]
fn unreachable_upstream_still_gets_a_reply() {
    let outcome: Result<Vec<u8>, String> = Err("Connection refused (os error 111)".to_string());
    let reply = relay(
        "2024-05-01 12:00:02",
        "GET",
        "http://example.internal:9090/foo?x=1",
        outcome,
    );
    match reply {
        Reply::Upstream(_) => panic!("no upstream answered"),
        Reply::Failure(failure) => {
            assert_eq!(failure.error, ForwardError::Transport);
            assert_eq!(failure.status, 502);
            assert_eq!(failure.body, "Connection refused (os error 111)");
            assert_eq!(
                failure.notice,
                "[2024-05-01 12:00:02][ERROR] Request error: GET \
                 http://example.internal:9090/foo?x=1: Connection refused (os error 111)"
            );
            assert!(failure.notice.contains("GET"));
            assert!(failure.notice.contains("http://example.internal:9090/foo?x=1"));
        },
    }
}

#[test]
fn failure_status_is_of_the_5xx_class() {
    assert_eq!(FAILURE_STATUS, 502);
    assert!(hyper::StatusCode::from_u16(FAILURE_STATUS).unwrap().is_server_error());
}

#[test]
fn method_and_body_pass_through() {
    let methods = [
        Method::GET,
        Method::POST,
        Method::PUT,
        Method::DELETE,
        Method::HEAD,
        Method::OPTIONS,
        Method::PATCH,
        Method::TRACE,
        Method::CONNECT,
        Method::from_bytes(b"PROPFIND").unwrap(),
        Method::from_bytes(b"A-RATHER-LONG-EXTENSION-METHOD").unwrap(),
    ];
    for method in methods.iter() {
        let body: Vec<u8> = vec![0, 1, 2, 255];
        let dispatch = dispatched(proxy(
            &conf(),
            "t",
            method.clone(),
            "/upload",
            headers(&[("content-length", "4")]),
            body.clone(),
        ));
        assert_eq!(&dispatch.outbound.method, method);
        assert_eq!(dispatch.method, method.as_str());
        assert_eq!(dispatch.notice, format!("[t][INFO] {} /upload", method));
        assert_eq!(dispatch.outbound.body, body);
        assert!(!dispatch.outbound.headers.contains_key("host"));
        assert_eq!(dispatch.outbound.headers.get("content-length").unwrap(), "4");
    }
}

#[test]
fn scheme_follows_the_configuration() {
    let mut forced = conf();
    forced.to_https = true;
    let dispatch = dispatched(proxy(&forced, "t", Method::GET, "/", HeaderMap::new(), ()));
    assert_eq!(dispatch.url, "https://example.internal:9090/");
    assert_eq!(dispatch.outbound.uri.scheme_part().unwrap().as_str(), "https");
    let mut tls = conf();
    tls.https_crt = Some("/etc/proxy/id.p12".to_string());
    let dispatch = dispatched(proxy(&tls, "t", Method::GET, "/", HeaderMap::new(), ()));
    assert_eq!(dispatch.url, "https://example.internal:9090/");
    assert_eq!(dispatch.outbound.uri.scheme_part().unwrap().as_str(), "https");
    let dispatch = dispatched(proxy(&conf(), "t", Method::GET, "/", HeaderMap::new(), ()));
    assert_eq!(dispatch.outbound.uri.scheme_part().unwrap().as_str(), "http");
}

#[test]
fn path_and_query_are_not_normalized() {
    for target in ["/a/../b//c/./d", "/%7Euser/%2e%2E/x?y=%20z&&=", "/a?b?c", "/", "/x?"].iter() {
        let dispatch = dispatched(proxy(&conf(), "t", Method::GET, target, HeaderMap::new(), ()));
        assert_eq!(dispatch.url, format!("http://example.internal:9090{}", target));
        assert_eq!(dispatch.outbound.uri.path_and_query().unwrap().as_str(), *target);
    }
}

#[test]
fn target_that_makes_no_uri_is_answered_with_a_failure() {
    let inbound = headers(&[("host", "localhost:8080")]);
    let failure = failed(proxy(&conf(), "t", Method::GET, "/with space", inbound, ()));
    assert_eq!(failure.error, ForwardError::InvalidUrl);
    assert_eq!(failure.status, 502);
    assert_eq!(failure.body, "invalid upstream URL");
    assert_eq!(
        failure.notice,
        "[t][ERROR] Request error: GET http://example.internal:9090/with space: invalid upstream URL"
    );
}

#[test]
fn upstream_host_that_makes_no_uri_is_answered_with_a_failure() {
    let mut odd = conf();
    odd.remote_url = "exa mple".to_string();
    let failure = failed(proxy(&odd, "t", Method::POST, "/", HeaderMap::new(), ()));
    assert_eq!(failure.error, ForwardError::InvalidUrl);
    odd.remote_url = "exa<mple>".to_string();
    let failure = failed(proxy(&odd, "t", Method::POST, "/", HeaderMap::new(), ()));
    assert_eq!(failure.error, ForwardError::InvalidUrl);
    assert_eq!(
        failure.notice,
        "[t][ERROR] Request error: POST http://exa<mple>:9090/: invalid upstream URL"
    );
}

#[test]
fn request_rewrites_host_and_keeps_the_rest() {
    let url: Uri = "http://example.internal:9090/foo?x=1".parse().unwrap();
    let inbound = headers(&[("host", "localhost:8080"), ("x-a", "1"), ("x-a", "2")]);
    let outbound =
        match request(Method::PUT, inbound, 7u32, url.clone(), "example.internal:9090") {
            Ok(outbound) => outbound,
            Err(error) => panic!("{:?}", error),
        };
    assert_eq!(outbound.method, Method::PUT);
    assert_eq!(outbound.uri, url);
    assert_eq!(outbound.body, 7);
    assert_eq!(outbound.headers.get("host").unwrap(), "example.internal:9090");
    let values: Vec<&HeaderValue> = outbound.headers.get_all("x-a").iter().collect();
    assert_eq!(values.len(), 2);
    assert_eq!(values[0], "1");
    assert_eq!(values[1], "2");
}

#[test]
fn request_refuses_an_authority_that_is_no_header_value() {
    let url: Uri = "http://example.internal:9090/".parse().unwrap();
    let inbound = headers(&[("host", "localhost:8080")]);
    let res = request(Method::GET, inbound, (), url.clone(), "bad\nhost:1");
    assert!(matches!(res, Err(ForwardError::InvalidHost)));
    let res = request(Method::GET, HeaderMap::new(), (), url, "bad\nhost:1");
    assert!(res.is_ok());
}

#[test]
fn failure_carries_line_status_and_body() {
    let failure = fail(ForwardError::InvalidHost, "t", "GET", "http://h:1/", "why");
    assert_eq!(failure.error, ForwardError::InvalidHost);
    assert_eq!(failure.notice, "[t][ERROR] Request error: GET http://h:1/: why");
    assert_eq!(failure.status, 502);
    assert_eq!(failure.body, "why");
}

#[test]
fn errors_describe_themselves() {
    assert_eq!(ForwardError::InvalidUrl.describe(), "invalid upstream URL");
    assert_eq!(ForwardError::InvalidHost.describe(), "invalid Host header value");
    assert_eq!(ForwardError::Transport.describe(), "upstream request failed");
}
