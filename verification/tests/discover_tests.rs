use panorama::discover::{
    backend_ready, discover_config, manifest_handler, DiscoverConfig, DiscoverSecrets,
    QueryParams,
};
use panorama::plugin_shared::is_shutdown_error;
use panorama::table::Table;
use panorama::types::{Datasource, Manifest, PanoramaConfig, Plugin};

fn config_with(name: &str, secrets: Option<Vec<(&str, &str)>>) -> PanoramaConfig {
    let bag = secrets.map(|pairs| {
        let mut bag: Table<String> = Table::new();
        for (k, v) in pairs {
            bag.insert(k.to_string(), v.to_string());
        }
        bag
    });
    let mut plugins: Table<Plugin> = Table::new();
    plugins.insert(
        name.to_string(),
        Plugin {
            binary_path: "./target/debug/discover".to_string(),
            socket_path: "/tmp/discover.sock".to_string(),
            secrets: bag,
        },
    );
    PanoramaConfig { plugins }
}

#[test]
fn manifest_handler_gives_the_discover_manifest() {
    assert_eq!(
        manifest_handler(),
        Manifest {
            id: "discover".to_string(),
            version: "0.0.1".to_string(),
            exported_datasources: vec![Datasource { kind: "elasticsearch".to_string() }],
        }
    );
}

#[test]
fn discover_config_reads_the_connection_string() {
    let config = config_with(
        "discover",
        Some(vec![("other", "x"), ("connection_string", "http://localhost:9200")]),
    );
    assert_eq!(
        discover_config(&config),
        Some(DiscoverConfig {
            secrets: DiscoverSecrets { connection_string: "http://localhost:9200".to_string() },
        })
    );
}

#[test]
fn discover_config_without_the_plugin_is_none() {
    let config = config_with("metrics", Some(vec![("connection_string", "http://es:9200")]));
    assert_eq!(discover_config(&config), None);
}

#[test]
fn discover_config_without_secrets_is_none() {
    let config = config_with("discover", None);
    assert_eq!(discover_config(&config), None);
}

#[test]
fn discover_config_without_the_connection_string_is_none() {
    let config = config_with("discover", Some(vec![("api_key", "k")]));
    assert_eq!(discover_config(&config), None);
}

#[test]
fn backend_ready_only_on_200() {
    assert!(backend_ready(200));
    assert!(!backend_ready(201));
    assert!(!backend_ready(199));
    assert!(!backend_ready(401));
    assert!(!backend_ready(503));
    assert!(!backend_ready(0));
}

#[test]
fn shutdown_errors_are_told_from_others() {
    assert!(is_shutdown_error("error shutting down connection: Transport endpoint is not connected"));
    assert!(is_shutdown_error("hyper::Error(Shutdown): error shutting down"));
    assert!(!is_shutdown_error("connection reset by peer"));
    assert!(!is_shutdown_error("Error shutting down"));
    assert!(!is_shutdown_error(""));
}

#[test]
fn query_params_hold_what_they_are_given() {
    let params = QueryParams {
        collection: "logs".to_string(),
        filter: Some("level:error".to_string()),
        limit: Some(10),
        offset: None,
    };
    assert_eq!(params.collection, "logs");
    assert_eq!(params.filter.as_deref(), Some("level:error"));
    assert_eq!(params.limit, Some(10));
    assert_eq!(params.offset, None);
}
