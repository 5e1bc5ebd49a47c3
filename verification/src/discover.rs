use vstd::prelude::*;
use vstd::string::StringExecFns;
use crate::types::{Datasource, DatasourceView, Manifest, ManifestView, PanoramaConfig, PluginView};

verus! {

/// The secrets that the discover plugin needs from the host.
#[derive(Debug, PartialEq, Eq)]
pub struct DiscoverSecrets {
    pub connection_string: String,
}

/// What the discover plugin reads from the host's configuration.
#[derive(Debug, PartialEq, Eq)]
pub struct DiscoverConfig {
    pub secrets: DiscoverSecrets,
}

impl View for DiscoverConfig {
    type V = Seq<char>;

    /// The connection string: it is all that the configuration holds.
    open spec fn view(&self) -> Seq<char> {
        self.secrets.connection_string@
    }
}

/// The connection string that a configuration holds for the discover
/// plugin: the secret `connection_string` of the plugin named `discover`.
pub open spec fn connection_string_of(config: Map<Seq<char>, PluginView>) -> Option<Seq<char>> {
    if config.contains_key("discover"@) {
        match config["discover"@].secrets {
            Some(bag) => if bag.contains_key("connection_string"@) {
                Some(bag["connection_string"@])
            } else {
                None
            },
            None => None,
        }
    } else {
        None
    }
}

/// The discover plugin's part of the host's configuration. `None` where the
/// host has no plugin of that name, or no connection string for it.
pub fn discover_config(config: &PanoramaConfig) -> (found: Option<DiscoverConfig>)
    ensures
        match found {
            Some(c) => connection_string_of(config@) == Some(c@),
            None => connection_string_of(config@) is None,
        },
{
    match config.plugins.get("discover") {
        None => None,
        Some(plugin) => match &plugin.secrets {
            None => None,
            Some(bag) => match bag.get("connection_string") {
                None => None,
                Some(text) => Some(
                    DiscoverConfig { secrets: DiscoverSecrets { connection_string: text.clone() } },
                ),
            },
        },
    }
}

/// What a query to a datasource asks for: the collection to look into and,
/// where the caller wants them, a filter and the window of hits to return.
#[derive(Debug, PartialEq, Eq)]
pub struct QueryParams {
    pub collection: String,
    pub filter: Option<String>,
    pub limit: Option<u64>,
    pub offset: Option<u64>,
}

/// What the discover plugin says of itself.
pub open spec fn discover_manifest() -> ManifestView {
    ManifestView {
        id: "discover"@,
        version: "0.0.1"@,
        exported_datasources: seq![DatasourceView { kind: "elasticsearch"@ }],
    }
}

/// The manifest with which the discover plugin answers a handshake.
pub fn manifest_handler() -> (manifest: Manifest)
    ensures
        manifest@ == discover_manifest(),
{
    let mut datasources: Vec<Datasource> = Vec::new();
    datasources.push(Datasource { kind: String::from_str("elasticsearch") });
    let manifest = Manifest {
        id: String::from_str("discover"),
        version: String::from_str("0.0.1"),
        exported_datasources: datasources,
    };
    assert(manifest@.exported_datasources =~= discover_manifest().exported_datasources);
    manifest
}

/// Whether the backend answered the plugin's first query as a backend that
/// is there does: with status 200.
pub fn backend_ready(status: u16) -> (ready: bool)
    ensures
        ready == (status == 200),
{
    status == 200
}

} // verus!
