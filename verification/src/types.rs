use vstd::prelude::*;
use crate::table::Table;

verus! {

/// One capability that a plugin exports.
#[derive(Debug, PartialEq, Eq)]
pub struct Datasource {
    pub kind: String,
}

pub struct DatasourceView {
    pub kind: Seq<char>,
}

impl View for Datasource {
    type V = DatasourceView;

    open spec fn view(&self) -> DatasourceView {
        DatasourceView { kind: self.kind@ }
    }
}

impl Clone for Datasource {
    fn clone(&self) -> (copy: Self)
        ensures
            copy@ == self@,
    {
        Datasource { kind: self.kind.clone() }
    }
}

/// What a plugin says of itself when asked: its identity, its version and
/// the capabilities it exports, in the order it lists them.
#[derive(Debug, PartialEq, Eq)]
pub struct Manifest {
    pub id: String,
    pub version: String,
    pub exported_datasources: Vec<Datasource>,
}

pub struct ManifestView {
    pub id: Seq<char>,
    pub version: Seq<char>,
    pub exported_datasources: Seq<DatasourceView>,
}

impl View for Manifest {
    type V = ManifestView;

    open spec fn view(&self) -> ManifestView {
        ManifestView {
            id: self.id@,
            version: self.version@,
            exported_datasources: self.exported_datasources@.map_values(|d: Datasource| d@),
        }
    }
}

impl Clone for Manifest {
    fn clone(&self) -> (copy: Self)
        ensures
            copy@ == self@,
    {
        let mut datasources: Vec<Datasource> = Vec::new();
        let mut i: usize = 0;
        while i < self.exported_datasources.len()
            invariant
                i <= self.exported_datasources@.len(),
                datasources@.len() == i,
                forall|j: int| 0 <= j < i ==> datasources@[j]@ == self.exported_datasources@[j]@,
            decreases self.exported_datasources@.len() - i,
        {
            datasources.push(self.exported_datasources[i].clone());
            i += 1;
        }
        let copy = Manifest {
            id: self.id.clone(),
            version: self.version.clone(),
            exported_datasources: datasources,
        };
        assert(copy@.exported_datasources =~= self@.exported_datasources);
        copy
    }
}

/// One configured plugin: the executable to run, the socket it is to bind,
/// and the secrets that are meant for it. The host never reads the secrets.
#[derive(Debug)]
pub struct Plugin {
    pub binary_path: String,
    pub socket_path: String,
    pub secrets: Option<Table<String>>,
}

pub struct PluginView {
    pub binary_path: Seq<char>,
    pub socket_path: Seq<char>,
    pub secrets: Option<Map<Seq<char>, Seq<char>>>,
}

impl View for Plugin {
    type V = PluginView;

    open spec fn view(&self) -> PluginView {
        PluginView {
            binary_path: self.binary_path@,
            socket_path: self.socket_path@,
            secrets: match self.secrets {
                Some(bag) => Some(bag@.map_values(|s: String| s@)),
                None => None,
            },
        }
    }
}

/// The configuration: every plugin under its name. It is read once and
/// never changed afterwards.
#[derive(Debug)]
pub struct PanoramaConfig {
    pub plugins: Table<Plugin>,
}

impl View for PanoramaConfig {
    type V = Map<Seq<char>, PluginView>;

    open spec fn view(&self) -> Map<Seq<char>, PluginView> {
        self.plugins@.map_values(|p: Plugin| p@)
    }
}

} // verus!
