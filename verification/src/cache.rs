//! The in-memory catalog: tools by id, tool ids by name, instances by id.

use crate::xds::{opt_ids, opt_tds, IdsView, TdsView, IDS, TDS};
use dashmap::DashMap;
use vstd::prelude::*;

verus! {

/// `dashmap::DashMap`, a concurrent hash map. What a map holds is told by
/// the names below; nothing else of its inside is looked at.
#[verifier::external_type_specification]
#[verifier::external_body]
#[verifier::reject_recursive_types(K)]
#[verifier::reject_recursive_types(V)]
#[verifier::reject_recursive_types(S)]
pub struct ExDashMap<K, V, S>(DashMap<K, V, S>);

/// The tools that a map holds, by key.
pub uninterp spec fn tds_entries(m: DashMap<String, TDS>) -> Map<Seq<char>, TdsView>;

/// The tool ids that a map holds, by tool name.
pub uninterp spec fn name_entries(m: DashMap<String, String>) -> Map<Seq<char>, Seq<char>>;

/// The instances that a map holds, by key.
pub uninterp spec fn ids_entries(m: DashMap<String, IDS>) -> Map<Seq<char>, IdsView>;

/// `DashMap::new`: a map that holds nothing.
#[verifier::external_body]
fn tds_table() -> (m: DashMap<String, TDS>)
    ensures
        forall|k: Seq<char>| !tds_entries(m).dom().contains(k),
{
    DashMap::new()
}

/// `DashMap::get`: a copy of the value under `key`, if the map has the key.
#[verifier::external_body]
fn tds_lookup(m: &DashMap<String, TDS>, key: &str) -> (r: Option<TDS>)
    ensures
        r is Some <==> tds_entries(*m).dom().contains(key@),
        r matches Some(t) ==> t@ == tds_entries(*m)[key@],
{
    m.get(key).map(|e| e.value().clone())
}

/// `DashMap::insert`: afterwards the map holds `value` under `key`, and
/// under every other key what it held before.
#[verifier::external_body]
fn tds_store(m: &mut DashMap<String, TDS>, key: String, value: TDS)
    ensures
        tds_entries(*final(m)) == tds_entries(*old(m)).insert(key@, value@),
{
    m.insert(key, value);
}

/// `DashMap::remove`: afterwards the map has no entry under `key`, and under
/// every other key what it held before.
#[verifier::external_body]
fn tds_delete(m: &mut DashMap<String, TDS>, key: &str)
    ensures
        tds_entries(*final(m)) == tds_entries(*old(m)).remove(key@),
{
    m.remove(key);
}

/// `DashMap::iter`: a copy of every entry, each key once, in the order in
/// which the map happens to be walked.
#[verifier::external_body]
fn tds_pairs(m: &DashMap<String, TDS>) -> (r: Vec<(String, TDS)>)
    ensures
        forall|i: int|
            0 <= i < r@.len() ==> tds_entries(*m).dom().contains(#[trigger] r@[i].0@)
                && tds_entries(*m)[r@[i].0@] == r@[i].1@,
        forall|i: int, j: int|
            0 <= i < j < r@.len() ==> #[trigger] r@[i].0@ != #[trigger] r@[j].0@,
        forall|k: Seq<char>|
            tds_entries(*m).dom().contains(k) ==> exists|i: int|
                0 <= i < r@.len() && #[trigger] r@[i].0@ == k,
{
    m.iter().map(|e| (e.key().clone(), e.value().clone())).collect()
}

/// `DashMap::new`: a map that holds nothing.
#[verifier::external_body]
fn name_table() -> (m: DashMap<String, String>)
    ensures
        forall|k: Seq<char>| !name_entries(m).dom().contains(k),
{
    DashMap::new()
}

/// `DashMap::get`: a copy of the value under `key`, if the map has the key.
#[verifier::external_body]
fn name_lookup(m: &DashMap<String, String>, key: &str) -> (r: Option<String>)
    ensures
        r is Some <==> name_entries(*m).dom().contains(key@),
        r matches Some(id) ==> id@ == name_entries(*m)[key@],
{
    m.get(key).map(|e| e.value().clone())
}

/// `DashMap::insert`: afterwards the map holds `value` under `key`, and
/// under every other key what it held before.
#[verifier::external_body]
fn name_store(m: &mut DashMap<String, String>, key: String, value: String)
    ensures
        name_entries(*final(m)) == name_entries(*old(m)).insert(key@, value@),
{
    m.insert(key, value);
}

/// `DashMap::remove`: afterwards the map has no entry under `key`, and under
/// every other key what it held before.
#[verifier::external_body]
fn name_delete(m: &mut DashMap<String, String>, key: &str)
    ensures
        name_entries(*final(m)) == name_entries(*old(m)).remove(key@),
{
    m.remove(key);
}

/// `DashMap::iter`: a copy of every entry, each key once, in the order in
/// which the map happens to be walked.
#[verifier::external_body]
fn name_pairs(m: &DashMap<String, String>) -> (r: Vec<(String, String)>)
    ensures
        forall|i: int|
            0 <= i < r@.len() ==> name_entries(*m).dom().contains(#[trigger] r@[i].0@)
                && name_entries(*m)[r@[i].0@] == r@[i].1@,
        forall|i: int, j: int|
            0 <= i < j < r@.len() ==> #[trigger] r@[i].0@ != #[trigger] r@[j].0@,
        forall|k: Seq<char>|
            name_entries(*m).dom().contains(k) ==> exists|i: int|
                0 <= i < r@.len() && #[trigger] r@[i].0@ == k,
{
    m.iter().map(|e| (e.key().clone(), e.value().clone())).collect()
}

/// `DashMap::new`: a map that holds nothing.
#[verifier::external_body]
fn ids_table() -> (m: DashMap<String, IDS>)
    ensures
        forall|k: Seq<char>| !ids_entries(m).dom().contains(k),
{
    DashMap::new()
}

/// `DashMap::get`: a copy of the value under `key`, if the map has the key.
#[verifier::external_body]
fn ids_lookup(m: &DashMap<String, IDS>, key: &str) -> (r: Option<IDS>)
    ensures
        r is Some <==> ids_entries(*m).dom().contains(key@),
        r matches Some(t) ==> t@ == ids_entries(*m)[key@],
{
    m.get(key).map(|e| e.value().clone())
}

/// `DashMap::insert`: afterwards the map holds `value` under `key`, and
/// under every other key what it held before.
#[verifier::external_body]
fn ids_store(m: &mut DashMap<String, IDS>, key: String, value: IDS)
    ensures
        ids_entries(*final(m)) == ids_entries(*old(m)).insert(key@, value@),
{
    m.insert(key, value);
}

/// `DashMap::remove`: afterwards the map has no entry under `key`, and under
/// every other key what it held before.
#[verifier::external_body]
fn ids_delete(m: &mut DashMap<String, IDS>, key: &str)
    ensures
        ids_entries(*final(m)) == ids_entries(*old(m)).remove(key@),
{
    m.remove(key);
}

/// What the catalog holds.
pub struct CacheView {
    pub tds_by_id: Map<Seq<char>, TdsView>,
    pub tds_by_name: Map<Seq<char>, Seq<char>>,
    pub ids_by_id: Map<Seq<char>, IdsView>,
}

/// The catalog of tools and instances. Lookups share the catalog; a change
/// needs it to itself, so a host that shares it among tasks keeps it behind
/// a lock that it holds for no longer than one call.
pub struct McpCache {
    tds_map: DashMap<String, TDS>,
    tds_name_map: DashMap<String, String>,
    ids_map: DashMap<String, IDS>,
}

impl View for McpCache {
    type V = CacheView;

    closed spec fn view(&self) -> CacheView {
        CacheView {
            tds_by_id: tds_entries(self.tds_map),
            tds_by_name: name_entries(self.tds_name_map),
            ids_by_id: ids_entries(self.ids_map),
        }
    }
}

/// A name index without every entry that leads to `id`.
pub open spec fn names_without(names: Map<Seq<char>, Seq<char>>, id: Seq<char>) -> Map<
    Seq<char>,
    Seq<char>,
> {
    Map::new(|n: Seq<char>| names.dom().contains(n) && names[n] != id, |n: Seq<char>| names[n])
}

impl CacheView {
    /// The catalog that holds nothing.
    pub open spec fn empty() -> CacheView {
        CacheView { tds_by_id: Map::empty(), tds_by_name: Map::empty(), ids_by_id: Map::empty() }
    }

    /// The tool stored under `id`.
    pub open spec fn get_tds(self, id: Seq<char>) -> Option<TdsView> {
        if self.tds_by_id.dom().contains(id) {
            Some(self.tds_by_id[id])
        } else {
            None
        }
    }

    /// The tool that the name index leads to: from the name to an id, and
    /// from the id to the tool stored under it.
    pub open spec fn get_tds_by_name(self, name: Seq<char>) -> Option<TdsView> {
        if self.tds_by_name.dom().contains(name) {
            self.get_tds(self.tds_by_name[name])
        } else {
            None
        }
    }

    /// The instance stored under `id`.
    pub open spec fn get_ids(self, id: Seq<char>) -> Option<IdsView> {
        if self.ids_by_id.dom().contains(id) {
            Some(self.ids_by_id[id])
        } else {
            None
        }
    }

    /// The catalog after `tds` is stored under `id`: the name index leads
    /// from the tool's name to `id`.
    pub open spec fn insert_tds(self, id: Seq<char>, tds: TdsView) -> CacheView {
        CacheView {
            tds_by_id: self.tds_by_id.insert(id, tds),
            tds_by_name: self.tds_by_name.insert(tds.name, id),
            ..self
        }
    }

    /// The catalog after the tool under `id` is removed, together with every
    /// entry of the name index that leads to `id`. An entry that leads to
    /// another id stays, also under the removed tool's name. Nothing changes
    /// where no tool is stored under `id`.
    pub open spec fn remove_tds(self, id: Seq<char>) -> CacheView {
        if self.tds_by_id.dom().contains(id) {
            CacheView {
                tds_by_id: self.tds_by_id.remove(id),
                tds_by_name: names_without(self.tds_by_name, id),
                ..self
            }
        } else {
            self
        }
    }

    /// The name index leads only to ids under which a tool is stored. The
    /// empty catalog is so, and every change keeps it so.
    pub open spec fn wf(self) -> bool {
        forall|n: Seq<char>|
            self.tds_by_name.dom().contains(n) ==> self.tds_by_id.dom().contains(
                #[trigger] self.tds_by_name[n],
            )
    }

    /// The catalog after `ids` is stored under `id`.
    pub open spec fn insert_ids(self, id: Seq<char>, ids: IdsView) -> CacheView {
        CacheView { ids_by_id: self.ids_by_id.insert(id, ids), ..self }
    }

    /// The catalog after the instance under `id` is removed.
    pub open spec fn remove_ids(self, id: Seq<char>) -> CacheView {
        CacheView { ids_by_id: self.ids_by_id.remove(id), ..self }
    }

    /// The tools among the first `n` of `tool_ids` that the catalog holds,
    /// in the order of `tool_ids`.
    pub open spec fn resolve(self, tool_ids: Seq<Seq<char>>, n: int) -> Seq<TdsView>
        decreases n,
    {
        if n <= 0 || n > tool_ids.len() {
            Seq::empty()
        } else {
            match self.get_tds(tool_ids[n - 1]) {
                Some(t) => self.resolve(tool_ids, n - 1).push(t),
                None => self.resolve(tool_ids, n - 1),
            }
        }
    }

    /// The tools of the instance `ids_id`, in the order of its `tool_ids`,
    /// without those that the catalog does not hold; nothing where the
    /// instance is unknown.
    pub open spec fn list_tds_by_ids_id(self, ids_id: Seq<char>) -> Seq<TdsView> {
        match self.get_ids(ids_id) {
            Some(ids) => self.resolve(ids.tool_ids, ids.tool_ids.len() as int),
            None => Seq::empty(),
        }
    }

    /// `tools` holds every tool of the catalog once, in some order.
    pub open spec fn lists_all(self, tools: Seq<TdsView>) -> bool {
        exists|keys: Seq<Seq<char>>|
            {
                &&& keys.len() == tools.len()
                &&& keys.no_duplicates()
                &&& forall|k: Seq<char>| self.tds_by_id.dom().contains(k) <==> keys.contains(k)
                &&& forall|i: int|
                    0 <= i < keys.len() ==> tools[i] == self.tds_by_id[#[trigger] keys[i]]
            }
    }
}

impl CacheView {
    /// Every tool is stored under its own id.
    pub open spec fn keyed_by_id(self) -> bool {
        forall|k: Seq<char>|
            self.tds_by_id.dom().contains(k) ==> (#[trigger] self.tds_by_id[k]).id == k
    }

    /// The name index leads from the name of every stored tool to the id
    /// under which the tool is stored.
    pub open spec fn name_indexed(self) -> bool {
        forall|k: Seq<char>|
            self.tds_by_id.dom().contains(k) ==> self.tds_by_name.dom().contains(
                (#[trigger] self.tds_by_id[k]).name,
            ) && self.tds_by_name[self.tds_by_id[k].name] == k
    }

    /// No tool stored under an id other than `id` is named `name`.
    pub open spec fn name_free(self, id: Seq<char>, name: Seq<char>) -> bool {
        forall|k: Seq<char>|
            self.tds_by_id.dom().contains(k) && k != id ==> (#[trigger] self.tds_by_id[k]).name
                != name
    }

    /// The positions among the first `n` of `tool_ids` whose tool the
    /// catalog holds, in rising order.
    pub open spec fn resolved_positions(self, tool_ids: Seq<Seq<char>>, n: int) -> Seq<int>
        decreases n,
    {
        if n <= 0 || n > tool_ids.len() {
            Seq::empty()
        } else if self.get_tds(tool_ids[n - 1]) is Some {
            self.resolved_positions(tool_ids, n - 1).push(n - 1)
        } else {
            self.resolved_positions(tool_ids, n - 1)
        }
    }
}

/// The empty catalog keeps every tool under its own id and indexes every
/// name.
pub proof fn lemma_empty_is_consistent()
    ensures
        CacheView::empty().keyed_by_id(),
        CacheView::empty().name_indexed(),
{
}

/// Storing a tool under its own id keeps every tool under its own id.
pub proof fn lemma_insert_keeps_ids(c: CacheView, id: Seq<char>, tds: TdsView)
    requires
        c.keyed_by_id(),
        tds.id == id,
    ensures
        c.insert_tds(id, tds).keyed_by_id(),
{
}

/// Storing a tool whose name no other tool has keeps the name index
/// complete.
pub proof fn lemma_insert_keeps_name_index(c: CacheView, id: Seq<char>, tds: TdsView)
    requires
        c.name_indexed(),
        c.name_free(id, tds.name),
    ensures
        c.insert_tds(id, tds).name_indexed(),
{
    let d = c.insert_tds(id, tds);
    assert forall|k: Seq<char>| d.tds_by_id.dom().contains(k) implies d.tds_by_name.dom().contains(
        (#[trigger] d.tds_by_id[k]).name,
    ) && d.tds_by_name[d.tds_by_id[k].name] == k by {
        if k != id {
            assert(c.tds_by_id[k].name != tds.name);
        }
    }
}

/// Removing a tool keeps every tool under its own id and keeps the name
/// index complete.
pub proof fn lemma_remove_keeps_consistency(c: CacheView, id: Seq<char>)
    ensures
        c.keyed_by_id() ==> c.remove_tds(id).keyed_by_id(),
        c.name_indexed() ==> c.remove_tds(id).name_indexed(),
{
    let d = c.remove_tds(id);
    if c.name_indexed() && c.tds_by_id.dom().contains(id) {
        assert forall|k: Seq<char>| d.tds_by_id.dom().contains(k) implies d.tds_by_name.dom().contains(
            (#[trigger] d.tds_by_id[k]).name,
        ) && d.tds_by_name[d.tds_by_id[k].name] == k by {
            assert(c.tds_by_id.dom().contains(k));
            assert(c.tds_by_name[c.tds_by_id[k].name] == k);
        }
    }
}

/// The name index of the empty catalog leads only to stored tools, and
/// every change of the catalog keeps it so.
pub proof fn lemma_wf_is_kept(c: CacheView, id: Seq<char>, tds: TdsView, ids: IdsView)
    ensures
        CacheView::empty().wf(),
        c.wf() ==> c.insert_tds(id, tds).wf(),
        c.wf() ==> c.remove_tds(id).wf(),
        c.wf() ==> c.insert_ids(id, ids).wf(),
        c.wf() ==> c.remove_ids(id).wf(),
{
    if c.wf() {
        let d = c.insert_tds(id, tds);
        assert forall|n: Seq<char>| d.tds_by_name.dom().contains(n) implies d.tds_by_id.dom().contains(
            #[trigger] d.tds_by_name[n],
        ) by {
            if n != tds.name {
                assert(c.tds_by_id.dom().contains(c.tds_by_name[n]));
            }
        }
        let e = c.remove_tds(id);
        assert forall|n: Seq<char>| e.tds_by_name.dom().contains(n) implies e.tds_by_id.dom().contains(
            #[trigger] e.tds_by_name[n],
        ) by {
            assert(c.tds_by_id.dom().contains(c.tds_by_name[n]));
        }
    }
}

/// Where every tool is stored under its own id and the name index is
/// complete, the index leads from a stored tool's name to that tool's id,
/// and a lookup by that name finds the tool.
pub proof fn lemma_name_leads_to_id(c: CacheView, id: Seq<char>)
    requires
        c.keyed_by_id(),
        c.name_indexed(),
        c.tds_by_id.dom().contains(id),
    ensures
        c.tds_by_name.dom().contains(c.tds_by_id[id].name),
        c.tds_by_name[c.tds_by_id[id].name] == c.tds_by_id[id].id,
        c.get_tds_by_name(c.tds_by_id[id].name) == Some(c.tds_by_id[id]),
{
}

/// Where every tool is stored under its own id, the tool found under an id
/// has that id.
pub proof fn lemma_found_tool_has_id(c: CacheView, id: Seq<char>)
    requires
        c.keyed_by_id(),
        c.get_tds(id) is Some,
    ensures
        c.get_tds(id)->0.id == id,
{
}

/// After a tool is stored under an id, a lookup of that id finds it, and so
/// does a lookup of its name.
pub proof fn lemma_get_after_insert(c: CacheView, id: Seq<char>, tds: TdsView)
    ensures
        c.insert_tds(id, tds).get_tds(id) == Some(tds),
        c.insert_tds(id, tds).get_tds_by_name(tds.name) == Some(tds),
{
}

/// After the tool under an id is removed, a lookup of that id finds
/// nothing, and no name leads to the id any more: a lookup of a name that
/// led to it finds nothing. Removing an id under which nothing is stored
/// changes nothing.
pub proof fn lemma_get_after_remove(c: CacheView, id: Seq<char>)
    requires
        c.wf(),
    ensures
        c.remove_tds(id).get_tds(id) is None,
        forall|n: Seq<char>|
            c.tds_by_name.dom().contains(n) && #[trigger] c.tds_by_name[n] == id
                ==> !c.remove_tds(id).tds_by_name.dom().contains(n) && c.remove_tds(
                id,
            ).get_tds_by_name(n) is None,
        c.get_tds(id) is None ==> c.remove_tds(id) == c,
{
    assert forall|n: Seq<char>|
        c.tds_by_name.dom().contains(n) && #[trigger] c.tds_by_name[n] == id
        implies !c.remove_tds(id).tds_by_name.dom().contains(n) by {
        assert(c.tds_by_id.dom().contains(c.tds_by_name[n]));
    }
}

/// Removing a tool leaves every name that leads to another id as it is: a
/// lookup of such a name finds what it found before, also where the removed
/// tool bore that name.
pub proof fn lemma_remove_spares_other_names(c: CacheView, id: Seq<char>, name: Seq<char>)
    requires
        c.tds_by_name.dom().contains(name),
        c.tds_by_name[name] != id,
    ensures
        c.remove_tds(id).tds_by_name.dom().contains(name),
        c.remove_tds(id).tds_by_name[name] == c.tds_by_name[name],
        c.remove_tds(id).get_tds_by_name(name) == c.get_tds_by_name(name),
{
}

/// The tools listed for an instance are those of its `tool_ids` that the
/// catalog holds, each at its place: the listed tools and the positions in
/// `tool_ids` that resolve correspond one to one, in rising order.
pub proof fn lemma_list_is_subsequence(c: CacheView, tool_ids: Seq<Seq<char>>, n: int)
    requires
        0 <= n <= tool_ids.len(),
    ensures
        c.resolved_positions(tool_ids, n).len() == c.resolve(tool_ids, n).len(),
        forall|i: int|
            0 <= i < c.resolved_positions(tool_ids, n).len() ==> 0 <= (
            #[trigger] c.resolved_positions(tool_ids, n)[i]) < n,
        forall|i: int, j: int|
            0 <= i < j < c.resolved_positions(tool_ids, n).len() ==> c.resolved_positions(
                tool_ids,
                n,
            )[i] < c.resolved_positions(tool_ids, n)[j],
        forall|i: int|
            0 <= i < c.resolved_positions(tool_ids, n).len() ==> c.get_tds(
                tool_ids[c.resolved_positions(tool_ids, n)[i]],
            ) == Some(#[trigger] c.resolve(tool_ids, n)[i]),
        forall|p: int|
            0 <= p < n && c.get_tds(#[trigger] tool_ids[p]) is Some ==> c.resolved_positions(
                tool_ids,
                n,
            ).contains(p),
    decreases n,
{
    if n > 0 {
        lemma_list_is_subsequence(c, tool_ids, n - 1);
        let before = c.resolved_positions(tool_ids, n - 1);
        let now = c.resolved_positions(tool_ids, n);
        assert forall|p: int| 0 <= p < n && c.get_tds(#[trigger] tool_ids[p]) is Some implies now.contains(
            p,
        ) by {
            if p < n - 1 {
                let i = choose|i: int| 0 <= i < before.len() && before[i] == p;
                assert(now[i] == p);
            } else {
                assert(now[now.len() - 1] == p);
            }
        }
    }
}

/// What a list of tools stands for.
pub open spec fn tools_view(tools: Seq<TDS>) -> Seq<TdsView> {
    Seq::new(tools.len(), |i: int| tools[i]@)
}

impl McpCache {
    pub fn new() -> (r: McpCache)
        ensures
            r@ == CacheView::empty(),
            r@.wf(),
    {
        let r = McpCache { tds_map: tds_table(), tds_name_map: name_table(), ids_map: ids_table() };
        assert(r@.tds_by_id =~= Map::empty());
        assert(r@.tds_by_name =~= Map::empty());
        assert(r@.ids_by_id =~= Map::empty());
        r
    }

    pub fn get_tds(&self, id: &str) -> (r: Option<TDS>)
        ensures
            opt_tds(r) == self@.get_tds(id@),
    {
        tds_lookup(&self.tds_map, id)
    }

    pub fn get_tds_by_name(&self, name: &str) -> (r: Option<TDS>)
        ensures
            opt_tds(r) == self@.get_tds_by_name(name@),
    {
        match name_lookup(&self.tds_name_map, name) {
            Some(id) => tds_lookup(&self.tds_map, id.as_str()),
            None => None,
        }
    }

    pub fn get_ids(&self, id: &str) -> (r: Option<IDS>)
        ensures
            opt_ids(r) == self@.get_ids(id@),
    {
        ids_lookup(&self.ids_map, id)
    }

    /// Every tool of the catalog, in no particular order.
    pub fn list_tds(&self) -> (r: Vec<TDS>)
        ensures
            self@.lists_all(tools_view(r@)),
    {
        let pairs = tds_pairs(&self.tds_map);
        let mut out: Vec<TDS> = Vec::new();
        let mut i: usize = 0;
        while i < pairs.len()
            invariant
                i <= pairs@.len(),
                out@.len() == i,
                forall|j: int| 0 <= j < i ==> out@[j]@ == pairs@[j].1@,
            decreases pairs@.len() - i,
        {
            out.push(pairs[i].1.clone());
            i += 1;
        }
        proof {
            let keys = Seq::new(pairs@.len(), |j: int| pairs@[j].0@);
            assert(keys.no_duplicates());
            assert forall|k: Seq<char>| self@.tds_by_id.dom().contains(k) <==> keys.contains(
                k,
            ) by {
                if self@.tds_by_id.dom().contains(k) {
                    let j = choose|j: int| 0 <= j < pairs@.len() && #[trigger] pairs@[j].0@ == k;
                    assert(keys[j] == k);
                }
                if keys.contains(k) {
                    let j = choose|j: int| 0 <= j < keys.len() && keys[j] == k;
                    assert(self@.tds_by_id.dom().contains(pairs@[j].0@));
                }
            }
            assert forall|j: int| 0 <= j < keys.len() implies tools_view(out@)[j]
                == self@.tds_by_id[#[trigger] keys[j]] by {
                assert(self@.tds_by_id.dom().contains(pairs@[j].0@));
            }
        }
        out
    }

    /// The tools of an instance, in the order of its `tool_ids`; a tool that
    /// the catalog does not hold is left out.
    pub fn list_tds_by_ids_id(&self, ids_id: &str) -> (r: Vec<TDS>)
        ensures
            tools_view(r@) == self@.list_tds_by_ids_id(ids_id@),
    {
        let mut out: Vec<TDS> = Vec::new();
        match ids_lookup(&self.ids_map, ids_id) {
            Some(ids) => {
                let mut i: usize = 0;
                while i < ids.tool_ids.len()
                    invariant
                        i <= ids.tool_ids@.len(),
                        tools_view(out@) == self@.resolve(ids@.tool_ids, i as int),
                    decreases ids.tool_ids@.len() - i,
                {
                    let ghost before = out@;
                    match self.get_tds(ids.tool_ids[i].as_str()) {
                        Some(tool) => {
                            out.push(tool);
                            assert(tools_view(out@) =~= tools_view(before).push(tool@));
                        },
                        None => {},
                    }
                    i += 1;
                }
                out
            },
            None => {
                assert(tools_view(out@) =~= Seq::empty());
                out
            },
        }
    }

    pub fn insert_tds(&mut self, key: String, value: TDS)
        ensures
            final(self)@ == old(self)@.insert_tds(key@, value@),
            old(self)@.wf() ==> final(self)@.wf(),
    {
        proof {
            lemma_wf_is_kept(self@, key@, value@, arbitrary());
        }
        let name = value.name.clone();
        let id = key.clone();
        tds_store(&mut self.tds_map, key, value);
        name_store(&mut self.tds_name_map, name, id);
    }

    pub fn remove_tds(&mut self, key: &str)
        ensures
            final(self)@ == old(self)@.remove_tds(key@),
            old(self)@.wf() ==> final(self)@.wf(),
    {
        proof {
            lemma_wf_is_kept(self@, key@, arbitrary(), arbitrary());
        }
        if tds_lookup(&self.tds_map, key).is_none() {
            return ;
        }
        let pairs = name_pairs(&self.tds_name_map);
        let ghost start = name_entries(self.tds_name_map);
        let mut i: usize = 0;
        while i < pairs.len()
            invariant
                i <= pairs@.len(),
                self.tds_map == old(self).tds_map,
                self.ids_map == old(self).ids_map,
                start == name_entries(old(self).tds_name_map),
                forall|j: int|
                    0 <= j < pairs@.len() ==> start.dom().contains(#[trigger] pairs@[j].0@)
                        && start[pairs@[j].0@] == pairs@[j].1@,
                forall|n: Seq<char>| #[trigger]
                    name_entries(self.tds_name_map).dom().contains(n) ==> start.dom().contains(n)
                        && name_entries(self.tds_name_map)[n] == start[n],
                forall|n: Seq<char>|
                    #[trigger] start.dom().contains(n) && start[n] != key@ ==> name_entries(
                        self.tds_name_map,
                    ).dom().contains(n),
                forall|j: int|
                    0 <= j < i && pairs@[j].1@ == key@ ==> !name_entries(
                        self.tds_name_map,
                    ).dom().contains(#[trigger] pairs@[j].0@),
            decreases pairs@.len() - i,
        {
            let ghost before = name_entries(self.tds_name_map);
            if *pairs[i].1.as_str() == *key {
                name_delete(&mut self.tds_name_map, pairs[i].0.as_str());
                proof {
                    let now = name_entries(self.tds_name_map);
                    let gone = pairs@[i as int].0@;
                    assert(now == before.remove(gone));
                    assert(start[gone] == key@);
                    assert forall|n: Seq<char>| #[trigger] now.dom().contains(n) implies start.dom().contains(
                        n,
                    ) && now[n] == start[n] by {
                        assert(before.dom().contains(n));
                    }
                    assert forall|n: Seq<char>| #[trigger]
                        start.dom().contains(n) && start[n] != key@ implies now.dom().contains(n) by {
                        assert(before.dom().contains(n));
                        assert(n != gone);
                    }
                    assert forall|j: int| 0 <= j < i + 1 && pairs@[j].1@ == key@ implies !now.dom().contains(
                        #[trigger] pairs@[j].0@,
                    ) by {
                        if j < i {
                            assert(!before.dom().contains(pairs@[j].0@));
                        }
                    }
                }
            }
            i += 1;
        }
        proof {
            let now = name_entries(self.tds_name_map);
            let want = names_without(start, key@);
            assert forall|n: Seq<char>| now.dom().contains(n) <==> want.dom().contains(n) by {
                if now.dom().contains(n) {
                    assert(start.dom().contains(n));
                    if start[n] == key@ {
                        let j = choose|j: int| 0 <= j < pairs@.len() && #[trigger] pairs@[j].0@ == n;
                        assert(pairs@[j].1@ == key@);
                        assert(!now.dom().contains(pairs@[j].0@));
                    }
                }
                if want.dom().contains(n) {
                    assert(start.dom().contains(n) && start[n] != key@);
                }
            }
            assert forall|n: Seq<char>| now.dom().contains(n) implies now[n] == want[n] by {
                assert(start.dom().contains(n));
            }
            assert(now =~= want);
        }
        tds_delete(&mut self.tds_map, key);
    }

    pub fn insert_ids(&mut self, key: String, value: IDS)
        ensures
            final(self)@ == old(self)@.insert_ids(key@, value@),
            old(self)@.wf() ==> final(self)@.wf(),
    {
        proof {
            lemma_wf_is_kept(self@, key@, arbitrary(), value@);
        }
        ids_store(&mut self.ids_map, key, value);
    }

    pub fn remove_ids(&mut self, key: &str)
        ensures
            final(self)@ == old(self)@.remove_ids(key@),
            old(self)@.wf() ==> final(self)@.wf(),
    {
        proof {
            lemma_wf_is_kept(self@, key@, arbitrary(), arbitrary());
        }
        ids_delete(&mut self.ids_map, key);
    }
}

} // verus!
