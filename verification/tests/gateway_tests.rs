use panorama::http::{
    error_reply, get_config, get_plugin_status, proxy_to_plugin, relay_checked, relay_response,
    rewrite_target, try_proxy_to_plugin, GatewayError, GatewayReply, ProxyCall,
};
use panorama::ipc::{manifest_request, IpcError, RequestFrame, ResponseFrame};
use panorama::registry::PluginRegistry;
use panorama::table::Table;
use panorama::types::{Datasource, Manifest, PanoramaConfig, Plugin};

fn config() -> PanoramaConfig {
    let mut secrets: Table<String> = Table::new();
    secrets.insert("connection_string".to_string(), "http://localhost:9200".to_string());
    let mut plugins: Table<Plugin> = Table::new();
    plugins.insert(
        "discover".to_string(),
        Plugin {
            binary_path: "./target/debug/discover".to_string(),
            socket_path: "/tmp/discover.sock".to_string(),
            secrets: Some(secrets),
        },
    );
    plugins.insert(
        "metrics".to_string(),
        Plugin {
            binary_path: "./target/debug/metrics".to_string(),
            socket_path: "/tmp/metrics.sock".to_string(),
            secrets: None,
        },
    );
    PanoramaConfig { plugins }
}

fn response(status: u16, body: &str) -> Result<ResponseFrame, IpcError> {
    Ok(ResponseFrame { status, body: body.as_bytes().to_vec() })
}

fn text(status: u16, body: &str) -> GatewayReply {
    GatewayReply::Text { status, body: body.as_bytes().to_vec() }
}

fn json(status: u16, body: &str) -> GatewayReply {
    GatewayReply::Json { status, body: body.as_bytes().to_vec() }
}

#[test]
fn rewrite_target_with_a_query() {
    assert_eq!(rewrite_target("datasource/query", Some("q=1")), "/datasource/query?q=1");
    assert_eq!(rewrite_target("a/b/c", Some("x=1&y=2")), "/a/b/c?x=1&y=2");
}

#[test]
fn rewrite_target_without_a_query() {
    assert_eq!(rewrite_target("foo", None), "/foo");
    assert_eq!(rewrite_target("a/b", None), "/a/b");
    assert_eq!(rewrite_target("", None), "/");
}

#[test]
fn rewrite_target_with_an_empty_query() {
    assert_eq!(rewrite_target("foo", Some("")), "/foo?");
}

#[test]
fn proxied_request_arrives_with_method_body_and_query() {
    let body = b"{\"collection\":\"logs\"}".to_vec();
    let decision = try_proxy_to_plugin(
        &config(),
        "discover",
        "datasource/elasticsearch/query",
        Some("q=1"),
        "POST".to_string(),
        body.clone(),
    );
    assert_eq!(
        decision,
        Some(Ok(ProxyCall {
            socket_path: "/tmp/discover.sock".to_string(),
            request: RequestFrame {
                method: "POST".to_string(),
                uri: "/datasource/elasticsearch/query?q=1".to_string(),
                body,
            },
        }))
    );
}

#[test]
fn proxy_picks_the_socket_of_the_plugin_named() {
    let decision =
        proxy_to_plugin(&config(), "metrics", "cpu", None, "GET".to_string(), Vec::new());
    assert_eq!(
        decision,
        Ok(ProxyCall {
            socket_path: "/tmp/metrics.sock".to_string(),
            request: RequestFrame {
                method: "GET".to_string(),
                uri: "/cpu".to_string(),
                body: Vec::new(),
            },
        })
    );
}

#[test]
fn unknown_plugin_gets_no_call() {
    let decision = try_proxy_to_plugin(
        &config(),
        "does-not-exist",
        "foo",
        None,
        "GET".to_string(),
        Vec::new(),
    );
    assert_eq!(
        decision,
        Some(Err(GatewayError::UnknownPlugin { plugin_id: "does-not-exist".to_string() }))
    );
}

#[test]
fn unknown_plugin_is_answered_with_404_and_its_name() {
    let reply = error_reply(&GatewayError::UnknownPlugin { plugin_id: "does-not-exist".to_string() });
    assert_eq!(reply, text(404, "invalid plugin id: does-not-exist"));
}

#[test]
fn unknown_plugin_wins_over_a_bad_target() {
    let decision = try_proxy_to_plugin(
        &config(),
        "does-not-exist",
        "not a uri",
        None,
        "GET".to_string(),
        Vec::new(),
    );
    assert_eq!(
        decision,
        Some(Err(GatewayError::UnknownPlugin { plugin_id: "does-not-exist".to_string() }))
    );
}

#[test]
fn a_target_that_is_no_uri_gets_no_decision() {
    let decision = try_proxy_to_plugin(
        &config(),
        "discover",
        "with space",
        None,
        "GET".to_string(),
        Vec::new(),
    );
    assert_eq!(decision, None);
    let decision = try_proxy_to_plugin(
        &config(),
        "discover",
        "ok",
        Some("q=a b"),
        "GET".to_string(),
        Vec::new(),
    );
    assert_eq!(decision, None);
}

#[test]
fn upstream_failure_is_answered_with_a_generic_500() {
    let reply = error_reply(&GatewayError::Upstream);
    assert_eq!(reply, text(500, "error"));
    assert_eq!(relay_response(Err(IpcError::Connect)), reply);
    assert_eq!(relay_response(Err(IpcError::Exchange)), reply);
}

#[test]
fn plugin_404_goes_through_with_its_body() {
    assert_eq!(relay_response(response(404, "no such datasource")), text(404, "no such datasource"));
}

#[test]
fn plugin_errors_go_through_whatever_the_body() {
    assert_eq!(
        relay_response(response(400, "{\"error\":\"bad\"}")),
        text(400, "{\"error\":\"bad\"}")
    );
    assert_eq!(relay_response(response(503, "")), text(503, ""));
}

#[test]
fn success_with_a_json_body_goes_through_as_json() {
    assert_eq!(
        relay_response(response(200, "{\"hits\": [1, 2, 3]}")),
        json(200, "{\"hits\": [1, 2, 3]}")
    );
    assert_eq!(relay_response(response(201, "null")), json(201, "null"));
    assert_eq!(relay_response(response(399, "[]")), json(399, "[]"));
}

#[test]
fn success_with_a_body_that_is_no_json_is_an_upstream_failure() {
    let failed = text(500, "error");
    assert_eq!(relay_response(response(200, "plain text")), failed);
    assert_eq!(relay_response(response(200, "")), failed);
    assert_eq!(relay_response(response(200, "{\"open\": ")), failed);
    assert_eq!(relay_response(response(200, "{} trailing")), failed);
}

#[test]
fn relay_checked_follows_what_it_is_told_of_the_body() {
    assert_eq!(relay_checked(response(200, "anything"), true), json(200, "anything"));
    assert_eq!(relay_checked(response(200, "{}"), false), text(500, "error"));
    assert_eq!(relay_checked(response(400, "{}"), true), text(400, "{}"));
    assert_eq!(relay_checked(Err(IpcError::Connect), true), text(500, "error"));
}

#[test]
fn get_config_shows_everything() {
    let config = config();
    let shown = get_config(&config);
    assert_eq!(shown.plugins.len(), 2);
    let discover = shown.plugins.get("discover").unwrap();
    assert_eq!(discover.binary_path, "./target/debug/discover");
    assert_eq!(discover.socket_path, "/tmp/discover.sock");
    assert_eq!(
        discover.secrets.as_ref().unwrap().get("connection_string"),
        Some(&"http://localhost:9200".to_string())
    );
    assert!(shown.plugins.get("metrics").unwrap().secrets.is_none());
}

#[test]
fn get_plugin_status_twice_is_the_same() {
    let mut registry = PluginRegistry::new();
    registry.upsert(Manifest {
        id: "discover".to_string(),
        version: "0.0.1".to_string(),
        exported_datasources: vec![Datasource { kind: "elasticsearch".to_string() }],
    });
    let first = get_plugin_status(&registry);
    let second = get_plugin_status(&registry);
    assert_eq!(first, second);
    assert_eq!(first.len(), 1);
    assert_eq!(first[0].id, "discover");
}

#[test]
fn manifest_request_is_a_get_without_body() {
    assert_eq!(
        manifest_request(),
        RequestFrame { method: "GET".to_string(), uri: "/manifest".to_string(), body: Vec::new() }
    );
}

#[test]
fn response_keeps_its_bytes() {
    assert_eq!(
        ResponseFrame::from_parts(200, b"{\"ok\":true}"),
        ResponseFrame { status: 200, body: b"{\"ok\":true}".to_vec() }
    );
    assert_eq!(ResponseFrame::from_parts(204, b""), ResponseFrame { status: 204, body: Vec::new() });
    assert_eq!(
        ResponseFrame::from_parts(200, &[0xff]),
        ResponseFrame { status: 200, body: vec![0xff] }
    );
}

#[test]
fn plugin_error_goes_through_byte_for_byte() {
    let body = vec![b'a', 0xff, 0x00, b'b'];
    assert_eq!(
        relay_response(Ok(ResponseFrame::from_parts(404, &body))),
        GatewayReply::Text { status: 404, body }
    );
}

#[test]
fn success_with_bytes_that_are_no_text_is_an_upstream_failure() {
    assert_eq!(relay_response(Ok(ResponseFrame::from_parts(200, &[0xff]))), text(500, "error"));
    assert_eq!(
        relay_response(Ok(ResponseFrame::from_parts(200, b"\"ab\xffcd\""))),
        text(500, "error")
    );
}

#[test]
fn every_method_and_body_is_handed_on() {
    for method in ["GET", "POST", "PUT", "DELETE", "PATCH", "OPTIONS", "HEAD"] {
        for body in [Vec::new(), b"x".to_vec(), vec![0x00, 0xff, 0x7f]] {
            let decision = proxy_to_plugin(
                &config(),
                "discover",
                "foo",
                Some("q=1"),
                method.to_string(),
                body.clone(),
            );
            assert_eq!(
                decision,
                Ok(ProxyCall {
                    socket_path: "/tmp/discover.sock".to_string(),
                    request: RequestFrame {
                        method: method.to_string(),
                        uri: "/foo?q=1".to_string(),
                        body,
                    },
                })
            );
        }
    }
}

#[test]
fn proxy_decides_even_where_the_target_is_no_uri() {
    let decision = proxy_to_plugin(
        &config(),
        "discover",
        "with space",
        None,
        "GET".to_string(),
        Vec::new(),
    );
    assert_eq!(
        decision,
        Ok(ProxyCall {
            socket_path: "/tmp/discover.sock".to_string(),
            request: RequestFrame {
                method: "GET".to_string(),
                uri: "/with space".to_string(),
                body: Vec::new(),
            },
        })
    );
}

#[test]
fn request_without_a_query_reaches_the_bare_path() {
    let decision =
        try_proxy_to_plugin(&config(), "discover", "foo", None, "GET".to_string(), Vec::new());
    assert_eq!(
        decision,
        Some(Ok(ProxyCall {
            socket_path: "/tmp/discover.sock".to_string(),
            request: RequestFrame {
                method: "GET".to_string(),
                uri: "/foo".to_string(),
                body: Vec::new(),
            },
        }))
    );
}
