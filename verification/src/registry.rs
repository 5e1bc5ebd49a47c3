use vstd::prelude::*;
use crate::table::Table;
use crate::types::{Manifest, ManifestView};

verus! {

/// The registry after one more handshake: the manifest stands under its own
/// id, in place of whatever stood there.
pub open spec fn upserted(
    registry: Map<Seq<char>, ManifestView>,
    manifest: ManifestView,
) -> Map<Seq<char>, ManifestView> {
    registry.insert(manifest.id, manifest)
}

/// The registry after a run of handshakes, taken in the order of the sequence.
pub open spec fn upserted_all(
    registry: Map<Seq<char>, ManifestView>,
    manifests: Seq<ManifestView>,
) -> Map<Seq<char>, ManifestView>
    decreases manifests.len(),
{
    if manifests.len() == 0 {
        registry
    } else {
        upserted(upserted_all(registry, manifests.drop_last()), manifests.last())
    }
}

/// The map that a list of manifests with distinct ids stands for.
pub open spec fn listed(entries: Seq<ManifestView>) -> Map<Seq<char>, ManifestView> {
    Map::new(
        |id: Seq<char>| exists|i: int| 0 <= i < entries.len() && #[trigger] entries[i].id == id,
        |id: Seq<char>| entries[choose|i: int| 0 <= i < entries.len() && #[trigger] entries[i].id == id],
    )
}

/// No two manifests of the list share an id.
pub open spec fn distinct_ids(entries: Seq<ManifestView>) -> bool {
    forall|i: int, j: int|
        0 <= i < j < entries.len() ==> #[trigger] entries[i].id != #[trigger] entries[j].id
}

/// Whether `after` is `before` with the manifest at `at`, which bears the
/// same id, replaced by `manifest`.
pub open spec fn replaced_at(
    before: Seq<ManifestView>,
    after: Seq<ManifestView>,
    manifest: ManifestView,
    at: int,
) -> bool {
    0 <= at < before.len() && before[at].id == manifest.id && after == before.update(at, manifest)
}

/// The plugins that have answered a handshake, each under the id that its
/// manifest declares. An entry stays until a later handshake under the same
/// id replaces it; nothing is ever removed.
#[derive(Debug)]
pub struct PluginRegistry {
    table: Table<Manifest>,
}

impl View for PluginRegistry {
    type V = Map<Seq<char>, ManifestView>;

    closed spec fn view(&self) -> Map<Seq<char>, ManifestView> {
        self.table@.map_values(|m: Manifest| m@)
    }
}

impl PluginRegistry {
    #[verifier::type_invariant]
    spec fn keyed_by_id(&self) -> bool {
        &&& self.table.keys().len() == self.table.values().len()
        &&& self.table.keys().no_duplicates()
        &&& forall|i: int|
            0 <= i < self.table.keys().len() ==> self.table.keys()[i] == self.table.values()[i].id@
    }

    /// The manifests, in the order in which their ids first arrived.
    pub closed spec fn entries(&self) -> Seq<ManifestView> {
        self.table.values().map_values(|m: Manifest| m@)
    }

    /// A registry that holds nothing.
    pub fn new() -> (registry: Self)
        ensures
            registry@ == Map::<Seq<char>, ManifestView>::empty(),
            registry.entries() == Seq::<ManifestView>::empty(),
    {
        let registry = PluginRegistry { table: Table::new() };
        assert(registry@ =~= Map::<Seq<char>, ManifestView>::empty());
        assert(registry.entries() =~= Seq::<ManifestView>::empty());
        registry
    }

    /// How many plugins are registered.
    pub fn len(&self) -> (n: usize)
        ensures
            n == self.entries().len(),
    {
        self.table.len()
    }

    /// The manifest registered under an id.
    pub fn get(&self, id: &str) -> (found: Option<&Manifest>)
        ensures
            match found {
                Some(m) => self@.contains_key(id@) && m@ == self@[id@],
                None => !self@.contains_key(id@),
            },
    {
        self.table.get(id)
    }

    /// Records a handshake: the manifest goes under the id it declares and
    /// replaces an earlier one under that id. Every other entry stays as it is.
    pub fn upsert(&mut self, manifest: Manifest)
        ensures
            final(self)@ == upserted(old(self)@, manifest@),
            old(self)@.contains_key(manifest@.id) ==> exists|at: int|
                replaced_at(old(self).entries(), final(self).entries(), manifest@, at),
            !old(self)@.contains_key(manifest@.id) ==> final(self).entries() == old(
                self,
            ).entries().push(manifest@),
    {
        proof {
            use_type_invariant(&*self);
        }
        let ghost before = self.table;
        let ghost entries = self.entries();
        let mut table: Table<Manifest> = Table::new();
        std::mem::swap(&mut self.table, &mut table);
        let id = manifest.id.clone();
        table.insert(id, manifest);
        proof {
            if before.keys().contains(manifest.id@) {
                let at = before.keys().index_of(manifest.id@);
                assert(table.values().map_values(|m: Manifest| m@) =~= before.values().map_values(
                    |m: Manifest| m@,
                ).update(at, manifest@));
                assert(entries[at] == before.values()[at]@);
                assert(replaced_at(
                    entries,
                    table.values().map_values(|m: Manifest| m@),
                    manifest@,
                    at,
                ));
            } else {
                assert(table.values().map_values(|m: Manifest| m@) =~= before.values().map_values(
                    |m: Manifest| m@,
                ).push(manifest@));
            }
            assert(table@.map_values(|m: Manifest| m@) =~= before@.map_values(|m: Manifest| m@).insert(
                manifest@.id,
                manifest@,
            ));
        }
        std::mem::swap(&mut self.table, &mut table);
        proof {
            if before@.map_values(|m: Manifest| m@).contains_key(manifest@.id) {
                assert(before@.contains_key(manifest@.id));
                assert(before.keys().contains(manifest.id@));
                let at = before.keys().index_of(manifest.id@);
                assert(replaced_at(entries, self.entries(), manifest@, at));
            }
        }
    }

    /// A copy of every entry, taken at one moment: later changes to the
    /// registry do not reach it.
    pub fn snapshot(&self) -> (copy: Vec<Manifest>)
        ensures
            copy@.map_values(|m: Manifest| m@) == self.entries(),
            distinct_ids(self.entries()),
            listed(self.entries()) == self@,
    {
        proof {
            use_type_invariant(self);
        }
        let mut copy: Vec<Manifest> = Vec::new();
        let n = self.table.len();
        let mut i: usize = 0;
        while i < n
            invariant
                n == self.table.keys().len(),
                n == self.table.values().len(),
                i <= n,
                copy@.len() == i,
                forall|j: int| 0 <= j < i ==> copy@[j]@ == self.table.values()[j]@,
            decreases n - i,
        {
            copy.push(self.table.value(i).clone());
            i += 1;
        }
        proof {
            assert(copy@.map_values(|m: Manifest| m@) =~= self.entries());
            self.lemma_entries();
        }
        copy
    }

    proof fn lemma_entries(&self)
        requires
            self.keyed_by_id(),
        ensures
            distinct_ids(self.entries()),
            listed(self.entries()) == self@,
    {
        let keys = self.table.keys();
        let values = self.table.values();
        let entries = self.entries();
        assert forall|i: int| 0 <= i < entries.len() implies #[trigger] entries[i].id == keys[i] by {
            assert(entries[i] == values[i]@);
        }
        assert forall|id: Seq<char>| listed(entries).contains_key(id) == self@.contains_key(id) by {
            if listed(entries).contains_key(id) {
                let i = choose|i: int| 0 <= i < entries.len() && #[trigger] entries[i].id == id;
                assert(keys[i] == id);
            }
            if self@.contains_key(id) {
                let i = keys.index_of(id);
                assert(entries[i].id == id);
            }
        }
        assert forall|id: Seq<char>| listed(entries).contains_key(id) implies listed(entries)[id]
            == self@[id] by {
            let i = choose|i: int| 0 <= i < entries.len() && #[trigger] entries[i].id == id;
            let j = keys.index_of(id);
            assert(keys[i] == id);
            assert(i == j);
            assert(entries[i] == values[i]@);
        }
        assert(listed(entries) =~= self@);
    }
}

/// After any run of handshakes the registry holds, under the id of each
/// manifest of the run, the last manifest that arrived under that id.
pub proof fn lemma_latest_upsert_stands(
    registry: Map<Seq<char>, ManifestView>,
    manifests: Seq<ManifestView>,
    i: int,
)
    requires
        0 <= i < manifests.len(),
        forall|j: int| i < j < manifests.len() ==> manifests[j].id != manifests[i].id,
    ensures
        upserted_all(registry, manifests).contains_key(manifests[i].id),
        upserted_all(registry, manifests)[manifests[i].id] == manifests[i],
    decreases manifests.len(),
{
    if i < manifests.len() - 1 {
        let earlier = manifests.drop_last();
        assert(manifests[manifests.len() - 1].id != manifests[i].id);
        assert(earlier[i] == manifests[i]);
        assert forall|j: int| i < j < earlier.len() implies earlier[j].id != earlier[i].id by {
            assert(earlier[j] == manifests[j]);
        }
        lemma_latest_upsert_stands(registry, earlier, i);
    }
}

/// Handshakes under ids that the run does not name leave an entry as it was.
pub proof fn lemma_other_ids_untouched(
    registry: Map<Seq<char>, ManifestView>,
    manifests: Seq<ManifestView>,
    id: Seq<char>,
)
    requires
        forall|j: int| 0 <= j < manifests.len() ==> manifests[j].id != id,
    ensures
        upserted_all(registry, manifests).contains_key(id) == registry.contains_key(id),
        registry.contains_key(id) ==> upserted_all(registry, manifests)[id] == registry[id],
    decreases manifests.len(),
{
    if manifests.len() > 0 {
        let earlier = manifests.drop_last();
        assert(manifests[manifests.len() - 1].id != id);
        assert forall|j: int| 0 <= j < earlier.len() implies earlier[j].id != id by {
            assert(earlier[j] == manifests[j]);
        }
        lemma_other_ids_untouched(registry, earlier, id);
    }
}

/// Handshakes under pairwise distinct ids, in whatever order they are taken,
/// leave every one of their manifests in the registry.
pub proof fn lemma_distinct_upserts_all_stand(
    registry: Map<Seq<char>, ManifestView>,
    manifests: Seq<ManifestView>,
)
    requires
        distinct_ids(manifests),
    ensures
        forall|i: int|
            0 <= i < manifests.len() ==> upserted_all(registry, manifests).contains_key(
                #[trigger] manifests[i].id,
            ) && upserted_all(registry, manifests)[manifests[i].id] == manifests[i],
{
    assert forall|i: int| 0 <= i < manifests.len() implies upserted_all(
        registry,
        manifests,
    ).contains_key(#[trigger] manifests[i].id) && upserted_all(registry, manifests)[manifests[i].id]
        == manifests[i] by {
        lemma_latest_upsert_stands(registry, manifests, i);
    }
}

} // verus!
