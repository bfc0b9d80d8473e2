//! The drivers that feed the catalog from a backing store: what a load and
//! a change event do to the catalog, and what the admin surface writes and
//! reads.

use crate::cache::{tools_view, CacheView, McpCache};
use crate::etcd::{events_view, pairs_view, EtcdEventType, EtcdWatchEvent, WatchEventView};
use crate::json::{
    json_text, opt_json, opt_text, parse_json, parsed_json, render_json, Json, JsonValue,
};
use crate::text::joined;
use crate::xds::{
    decode_ids, decode_tds, encode_ids, encode_tds, texts_view, IdsView, TdsView, IDS, TDS,
};
use vstd::prelude::*;

verus! {

/// The prefix of the keys of tools in the store.
pub const ETCD_TDS_PREFIX: &'static str = "/dynmcp/tds/";

/// The prefix of the keys of instances in the store.
pub const ETCD_IDS_PREFIX: &'static str = "/dynmcp/ids/";

/// The rows that one scan of the table reads.
pub const PAGE_SIZE: i64 = 100;

/// The seconds that a scan which found nothing is followed by.
pub const IDLE_SLEEP_SECS: u64 = 5;

/// The two kinds of record.
#[derive(Debug, Clone, Copy, PartialEq, Eq, Structural)]
pub enum XdsKind {
    Tds,
    Ids,
}

/// The kind that a type name in a row stands for.
pub open spec fn kind_named(name: Seq<char>) -> Option<XdsKind> {
    if name == "TDS"@ {
        Some(XdsKind::Tds)
    } else if name == "IDS"@ {
        Some(XdsKind::Ids)
    } else {
        None
    }
}

impl XdsKind {
    /// The name of the kind in a row of the table.
    pub open spec fn name(self) -> Seq<char> {
        match self {
            XdsKind::Tds => "TDS"@,
            XdsKind::Ids => "IDS"@,
        }
    }

    /// The prefix of the keys of the kind in the store.
    pub open spec fn prefix(self) -> Seq<char> {
        match self {
            XdsKind::Tds => "/dynmcp/tds/"@,
            XdsKind::Ids => "/dynmcp/ids/"@,
        }
    }

    pub fn as_str(self) -> (r: &'static str)
        ensures
            r@ == self.name(),
    {
        match self {
            XdsKind::Tds => "TDS",
            XdsKind::Ids => "IDS",
        }
    }

    pub fn etcd_prefix(self) -> (r: &'static str)
        ensures
            r@ == self.prefix(),
    {
        match self {
            XdsKind::Tds => ETCD_TDS_PREFIX,
            XdsKind::Ids => ETCD_IDS_PREFIX,
        }
    }

    pub fn from_str(name: &str) -> (r: Option<XdsKind>)
        ensures
            r == kind_named(name@),
    {
        if *name == *"TDS" {
            Some(XdsKind::Tds)
        } else if *name == *"IDS" {
            Some(XdsKind::Ids)
        } else {
            None
        }
    }
}

/// Why the store did not serve a request of the admin surface.
#[derive(Debug, PartialEq, Eq)]
pub enum StoreError {
    /// Nothing is stored under the key.
    NotFound(String),
    /// What is stored is not a record of the kind asked for.
    Unreadable,
    /// The driver does not do this.
    NotImplemented(String),
}

impl StoreError {
    /// The text with which the error is reported.
    pub open spec fn spec_message(self) -> Seq<char> {
        match self {
            StoreError::NotFound(key) => "Key `"@ + key@ + "` not found"@,
            StoreError::Unreadable => "Failed to deserialize the stored record"@,
            StoreError::NotImplemented(what) => what@ + " not implemented"@,
        }
    }

    pub fn message(&self) -> (r: String)
        ensures
            r@ == self.spec_message(),
    {
        match self {
            StoreError::NotFound(key) => {
                let mut text = joined("Key `", key.as_str());
                text.append("` not found");
                text
            },
            StoreError::Unreadable => "Failed to deserialize the stored record".to_string(),
            StoreError::NotImplemented(what) => joined(what.as_str(), " not implemented"),
        }
    }
}

/// The tool that a stored text describes.
pub open spec fn tds_of_text(text: Seq<char>) -> Option<TdsView> {
    match parsed_json(text) {
        Some(doc) => decode_tds(doc),
        None => None,
    }
}

/// The instance that a stored text describes.
pub open spec fn ids_of_text(text: Seq<char>) -> Option<IdsView> {
    match parsed_json(text) {
        Some(doc) => decode_ids(doc),
        None => None,
    }
}

/// The catalog after the tool that a document describes is stored under
/// `key`; a document that describes none changes nothing.
pub open spec fn tds_put(c: CacheView, key: Seq<char>, doc: Option<JsonValue>) -> CacheView {
    match doc {
        Some(d) => match decode_tds(d) {
            Some(t) => c.insert_tds(key, t),
            None => c,
        },
        None => c,
    }
}

/// The catalog after the instance that a document describes is stored
/// under `key`; a document that describes none changes nothing.
pub open spec fn ids_put(c: CacheView, key: Seq<char>, doc: Option<JsonValue>) -> CacheView {
    match doc {
        Some(d) => match decode_ids(d) {
            Some(t) => c.insert_ids(key, t),
            None => c,
        },
        None => c,
    }
}

/// The catalog after the first `n` pairs of a scan of the tools are
/// stored, each under its key; a value that describes no tool is skipped.
pub open spec fn tds_loaded(c: CacheView, pairs: Seq<(Seq<char>, Seq<char>)>, n: int) -> CacheView
    decreases n,
{
    if n <= 0 || n > pairs.len() {
        c
    } else {
        tds_put(tds_loaded(c, pairs, n - 1), pairs[n - 1].0, parsed_json(pairs[n - 1].1))
    }
}

/// The catalog after the first `n` pairs of a scan of the instances are
/// stored, each under its key; a value that describes no instance is
/// skipped.
pub open spec fn ids_loaded(c: CacheView, pairs: Seq<(Seq<char>, Seq<char>)>, n: int) -> CacheView
    decreases n,
{
    if n <= 0 || n > pairs.len() {
        c
    } else {
        ids_put(ids_loaded(c, pairs, n - 1), pairs[n - 1].0, parsed_json(pairs[n - 1].1))
    }
}

/// The catalog after a change event of the tools: a PUT with a value
/// stores the tool that the value describes under the key of the event, a
/// DELETE removes the tool under that key, and anything else changes
/// nothing.
pub open spec fn tds_event(
    c: CacheView,
    event_type: EtcdEventType,
    key: Seq<char>,
    value: Option<Seq<char>>,
) -> CacheView {
    match event_type {
        EtcdEventType::Put => match value {
            Some(text) => tds_put(c, key, parsed_json(text)),
            None => c,
        },
        EtcdEventType::Delete => c.remove_tds(key),
        EtcdEventType::Unknown => c,
    }
}

/// The catalog after a change event of the instances.
pub open spec fn ids_event(
    c: CacheView,
    event_type: EtcdEventType,
    key: Seq<char>,
    value: Option<Seq<char>>,
) -> CacheView {
    match event_type {
        EtcdEventType::Put => match value {
            Some(text) => ids_put(c, key, parsed_json(text)),
            None => c,
        },
        EtcdEventType::Delete => c.remove_ids(key),
        EtcdEventType::Unknown => c,
    }
}

/// The catalog after the first `n` events of a watch of the tools, in the
/// order in which the store delivered them.
pub open spec fn tds_watched(c: CacheView, events: Seq<WatchEventView>, n: int) -> CacheView
    decreases n,
{
    if n <= 0 || n > events.len() {
        c
    } else {
        tds_event(
            tds_watched(c, events, n - 1),
            events[n - 1].event_type,
            events[n - 1].key,
            events[n - 1].value,
        )
    }
}

/// The catalog after the first `n` events of a watch of the instances, in
/// the order in which the store delivered them.
pub open spec fn ids_watched(c: CacheView, events: Seq<WatchEventView>, n: int) -> CacheView
    decreases n,
{
    if n <= 0 || n > events.len() {
        c
    } else {
        ids_event(
            ids_watched(c, events, n - 1),
            events[n - 1].event_type,
            events[n - 1].key,
            events[n - 1].value,
        )
    }
}

/// The catalog after a run of the driver: the scan of the tools, the events
/// of their watch, the scan of the instances and the events of theirs. The
/// two watches touch different tables, so that only the order within each
/// of them counts.
pub open spec fn fetched_and_watched(
    c: CacheView,
    tds_pairs: Seq<(Seq<char>, Seq<char>)>,
    tds_events: Seq<WatchEventView>,
    ids_pairs: Seq<(Seq<char>, Seq<char>)>,
    ids_events: Seq<WatchEventView>,
) -> CacheView {
    ids_watched(
        ids_loaded(
            tds_watched(
                tds_loaded(c, tds_pairs, tds_pairs.len() as int),
                tds_events,
                tds_events.len() as int,
            ),
            ids_pairs,
            ids_pairs.len() as int,
        ),
        ids_events,
        ids_events.len() as int,
    )
}

/// Stores under `key` the tool that a document describes, and says whether
/// it described one.
pub fn put_tds_doc(cache: &mut McpCache, key: &str, doc: Option<Json>) -> (stored: bool)
    ensures
        final(cache)@ == tds_put(old(cache)@, key@, opt_json(doc)),
        stored == (doc matches Some(d) && decode_tds(d@) is Some),
{
    match doc {
        Some(d) => match TDS::from_json(&d) {
            Some(tds) => {
                cache.insert_tds(key.to_string(), tds);
                true
            },
            None => false,
        },
        None => false,
    }
}

/// Stores under `key` the instance that a document describes, and says
/// whether it described one.
pub fn put_ids_doc(cache: &mut McpCache, key: &str, doc: Option<Json>) -> (stored: bool)
    ensures
        final(cache)@ == ids_put(old(cache)@, key@, opt_json(doc)),
        stored == (doc matches Some(d) && decode_ids(d@) is Some),
{
    match doc {
        Some(d) => match IDS::from_json(&d) {
            Some(ids) => {
                cache.insert_ids(key.to_string(), ids);
                true
            },
            None => false,
        },
        None => false,
    }
}

/// The driver for an etcd store.
#[derive(Debug, Clone, Copy, PartialEq, Eq, Structural)]
pub struct EtcdDataSource;

impl EtcdDataSource {
    pub fn new() -> (r: EtcdDataSource)
        ensures
            r == EtcdDataSource,
    {
        EtcdDataSource
    }

    /// Fills the catalog with the tools of a scan of the store.
    pub fn load_tds(&self, cache: &mut McpCache, pairs: &Vec<(String, String)>)
        ensures
            final(cache)@ == tds_loaded(old(cache)@, pairs_view(pairs@), pairs@.len() as int),
    {
        let ghost start = cache@;
        let mut i: usize = 0;
        while i < pairs.len()
            invariant
                i <= pairs@.len(),
                cache@ == tds_loaded(start, pairs_view(pairs@), i as int),
            decreases pairs@.len() - i,
        {
            let doc = parse_json(pairs[i].1.as_str());
            put_tds_doc(cache, pairs[i].0.as_str(), doc);
            i += 1;
        }
    }

    /// Fills the catalog with the instances of a scan of the store.
    pub fn load_ids(&self, cache: &mut McpCache, pairs: &Vec<(String, String)>)
        ensures
            final(cache)@ == ids_loaded(old(cache)@, pairs_view(pairs@), pairs@.len() as int),
    {
        let ghost start = cache@;
        let mut i: usize = 0;
        while i < pairs.len()
            invariant
                i <= pairs@.len(),
                cache@ == ids_loaded(start, pairs_view(pairs@), i as int),
            decreases pairs@.len() - i,
        {
            let doc = parse_json(pairs[i].1.as_str());
            put_ids_doc(cache, pairs[i].0.as_str(), doc);
            i += 1;
        }
    }

    /// Applies a change event of the tools to the catalog.
    pub fn on_tds_event(&self, cache: &mut McpCache, event: &EtcdWatchEvent)
        ensures
            final(cache)@ == tds_event(
                old(cache)@,
                event.event_type,
                event.key@,
                opt_text(event.value),
            ),
    {
        match event.event_type {
            EtcdEventType::Put => match &event.value {
                Some(text) => {
                    let doc = parse_json(text.as_str());
                    put_tds_doc(cache, event.key.as_str(), doc);
                },
                None => {},
            },
            EtcdEventType::Delete => {
                cache.remove_tds(event.key.as_str());
            },
            EtcdEventType::Unknown => {},
        }
    }

    /// Applies a change event of the instances to the catalog.
    pub fn on_ids_event(&self, cache: &mut McpCache, event: &EtcdWatchEvent)
        ensures
            final(cache)@ == ids_event(
                old(cache)@,
                event.event_type,
                event.key@,
                opt_text(event.value),
            ),
    {
        match event.event_type {
            EtcdEventType::Put => match &event.value {
                Some(text) => {
                    let doc = parse_json(text.as_str());
                    put_ids_doc(cache, event.key.as_str(), doc);
                },
                None => {},
            },
            EtcdEventType::Delete => {
                cache.remove_ids(event.key.as_str());
            },
            EtcdEventType::Unknown => {},
        }
    }

    /// Brings the catalog to where a run of the driver leaves it: it is
    /// filled from the scans of both prefixes, and every event that the two
    /// watches delivered is applied in the order of its watch.
    pub fn fetch_and_watch(
        &self,
        cache: &mut McpCache,
        tds_pairs: &Vec<(String, String)>,
        tds_events: &Vec<EtcdWatchEvent>,
        ids_pairs: &Vec<(String, String)>,
        ids_events: &Vec<EtcdWatchEvent>,
    )
        ensures
            final(cache)@ == fetched_and_watched(
                old(cache)@,
                pairs_view(tds_pairs@),
                events_view(tds_events@),
                pairs_view(ids_pairs@),
                events_view(ids_events@),
            ),
    {
        self.load_tds(cache, tds_pairs);
        let ghost loaded = cache@;
        let mut i: usize = 0;
        while i < tds_events.len()
            invariant
                i <= tds_events@.len(),
                cache@ == tds_watched(loaded, events_view(tds_events@), i as int),
            decreases tds_events@.len() - i,
        {
            self.on_tds_event(cache, &tds_events[i]);
            i += 1;
        }
        self.load_ids(cache, ids_pairs);
        let ghost loaded = cache@;
        let mut j: usize = 0;
        while j < ids_events.len()
            invariant
                j <= ids_events@.len(),
                cache@ == ids_watched(loaded, events_view(ids_events@), j as int),
            decreases ids_events@.len() - j,
        {
            self.on_ids_event(cache, &ids_events[j]);
            j += 1;
        }
    }

    /// The key under which the record `id` of a kind is stored: the prefix
    /// of the kind followed by the id.
    pub fn key_for(&self, kind: XdsKind, id: &str) -> (r: String)
        ensures
            r@ == kind.prefix() + id@,
    {
        joined(kind.etcd_prefix(), id)
    }

    /// What an admin write of a tool puts into the store: the key and the
    /// JSON text of the tool.
    pub fn put_tds(&self, id: &str, value: &TDS) -> (r: (String, String))
        ensures
            r.0@ == XdsKind::Tds.prefix() + id@,
            r.1@ == json_text(encode_tds(value@)),
    {
        (self.key_for(XdsKind::Tds, id), render_json(&value.to_json()))
    }

    /// What an admin write of an instance puts into the store: the key and
    /// the JSON text of the instance.
    pub fn put_ids(&self, id: &str, value: &IDS) -> (r: (String, String))
        ensures
            r.0@ == XdsKind::Ids.prefix() + id@,
            r.1@ == json_text(encode_ids(value@)),
    {
        (self.key_for(XdsKind::Ids, id), render_json(&value.to_json()))
    }
}

/// The tool that the store holds under an id, from what a read brought.
pub fn stored_tds(id: &str, found: Option<Json>, present: bool) -> (r: Result<TDS, StoreError>)
    ensures
        match r {
            Ok(t) => present && (opt_json(found) matches Some(d) && decode_tds(d) == Some(t@)),
            Err(StoreError::NotFound(key)) => !present && key@ == id@,
            Err(StoreError::Unreadable) => present && !(opt_json(found) matches Some(d)
                && decode_tds(d) is Some),
            Err(_) => false,
        },
{
    if !present {
        return Err(StoreError::NotFound(id.to_string()));
    }
    match found {
        Some(doc) => match TDS::from_json(&doc) {
            Some(t) => Ok(t),
            None => Err(StoreError::Unreadable),
        },
        None => Err(StoreError::Unreadable),
    }
}

/// The instance that the store holds under an id, from what a read
/// brought.
pub fn stored_ids(id: &str, found: Option<Json>, present: bool) -> (r: Result<IDS, StoreError>)
    ensures
        match r {
            Ok(t) => present && (opt_json(found) matches Some(d) && decode_ids(d) == Some(t@)),
            Err(StoreError::NotFound(key)) => !present && key@ == id@,
            Err(StoreError::Unreadable) => present && !(opt_json(found) matches Some(d)
                && decode_ids(d) is Some),
            Err(_) => false,
        },
{
    if !present {
        return Err(StoreError::NotFound(id.to_string()));
    }
    match found {
        Some(doc) => match IDS::from_json(&doc) {
            Some(t) => Ok(t),
            None => Err(StoreError::Unreadable),
        },
        None => Err(StoreError::Unreadable),
    }
}

/// The tool that a read of the store brought: nothing stored is reported
/// as not found, and a text that describes no tool as unreadable.
pub fn get_tds(id: &str, stored: Option<String>) -> (r: Result<TDS, StoreError>)
    ensures
        match r {
            Ok(t) => stored matches Some(text) && tds_of_text(text@) == Some(t@),
            Err(StoreError::NotFound(key)) => stored is None && key@ == id@,
            Err(StoreError::Unreadable) => stored matches Some(text) && tds_of_text(text@) is None,
            Err(_) => false,
        },
{
    match stored {
        Some(text) => stored_tds(id, parse_json(text.as_str()), true),
        None => stored_tds(id, None, false),
    }
}

/// The instance that a read of the store brought.
pub fn get_ids(id: &str, stored: Option<String>) -> (r: Result<IDS, StoreError>)
    ensures
        match r {
            Ok(t) => stored matches Some(text) && ids_of_text(text@) == Some(t@),
            Err(StoreError::NotFound(key)) => stored is None && key@ == id@,
            Err(StoreError::Unreadable) => stored matches Some(text) && ids_of_text(text@) is None,
            Err(_) => false,
        },
{
    match stored {
        Some(text) => stored_ids(id, parse_json(text.as_str()), true),
        None => stored_ids(id, None, false),
    }
}

/// A row of the table of records.
#[derive(Debug)]
pub struct XDSRecord {
    pub id: i64,
    pub key: String,
    pub xds_type: String,
    pub xds_json: String,
    pub status: String,
}

/// The catalog after a row is applied: a row of the type `TDS` or `IDS`
/// whose document describes a record of that type stores the record under
/// the key of the row; any other row changes nothing.
pub open spec fn row_applied(
    c: CacheView,
    xds_type: Seq<char>,
    key: Seq<char>,
    doc: Option<JsonValue>,
) -> CacheView {
    match kind_named(xds_type) {
        Some(XdsKind::Tds) => tds_put(c, key, doc),
        Some(XdsKind::Ids) => ids_put(c, key, doc),
        None => c,
    }
}

/// Whether a row stores a record.
pub open spec fn row_stores(xds_type: Seq<char>, doc: Option<JsonValue>) -> bool {
    match kind_named(xds_type) {
        Some(XdsKind::Tds) => doc matches Some(d) && decode_tds(d) is Some,
        Some(XdsKind::Ids) => doc matches Some(d) && decode_ids(d) is Some,
        None => false,
    }
}

/// What the scan loop does next.
#[derive(Debug, Clone, Copy, PartialEq, Eq, Structural)]
pub enum SyncAction {
    /// Read the next page of the whole table.
    FetchPage { limit: i64, offset: i64 },
    /// Read the rows that are pending.
    FetchPending { limit: i64 },
    /// Pause, then read the rows that are pending.
    Sleep { secs: u64 },
}

/// The driver for a MySQL table.
#[derive(Debug, Clone, Copy, PartialEq, Eq, Structural)]
pub struct MysqlDataSource;

impl MysqlDataSource {
    pub fn new() -> (r: MysqlDataSource)
        ensures
            r == MysqlDataSource,
    {
        MysqlDataSource
    }

    /// Applies a row whose document has been read to the catalog, and says
    /// whether it stored a record.
    pub fn insert_doc_into_cache(
        &self,
        cache: &mut McpCache,
        xds_type: &str,
        key: &str,
        doc: Option<Json>,
    ) -> (stored: bool)
        ensures
            final(cache)@ == row_applied(old(cache)@, xds_type@, key@, opt_json(doc)),
            stored == row_stores(xds_type@, opt_json(doc)),
    {
        match XdsKind::from_str(xds_type) {
            Some(XdsKind::Tds) => put_tds_doc(cache, key, doc),
            Some(XdsKind::Ids) => put_ids_doc(cache, key, doc),
            None => false,
        }
    }

    /// Applies a row to the catalog, and says whether it stored a record.
    pub fn insert_into_cache(&self, cache: &mut McpCache, record: &XDSRecord) -> (stored: bool)
        ensures
            final(cache)@ == row_applied(
                old(cache)@,
                record.xds_type@,
                record.key@,
                parsed_json(record.xds_json@),
            ),
            stored == row_stores(record.xds_type@, parsed_json(record.xds_json@)),
    {
        let doc = parse_json(record.xds_json.as_str());
        self.insert_doc_into_cache(cache, record.xds_type.as_str(), record.key.as_str(), doc)
    }

    /// The first step of the scan loop: the first page of the whole table.
    pub fn fetch_and_watch(&self) -> (r: SyncAction)
        ensures
            r == (SyncAction::FetchPage { limit: 100, offset: 0 }),
    {
        SyncAction::FetchPage { limit: PAGE_SIZE, offset: 0 }
    }

    /// The step after a page of the whole table with `rows` rows that was
    /// read at `offset`: an empty page ends the load, and the pending rows
    /// are read next; otherwise the next page is read. An offset that
    /// cannot grow any more ends the load as well.
    pub fn after_page(&self, rows: usize, offset: i64) -> (r: SyncAction)
        ensures
            r == if rows == 0 || offset > i64::MAX - 100 {
                SyncAction::FetchPending { limit: 100 }
            } else {
                SyncAction::FetchPage { limit: 100, offset: (offset + 100) as i64 }
            },
    {
        if rows == 0 || offset > i64::MAX - PAGE_SIZE {
            SyncAction::FetchPending { limit: PAGE_SIZE }
        } else {
            SyncAction::FetchPage { limit: PAGE_SIZE, offset: offset + PAGE_SIZE }
        }
    }

    /// The step after a read of the pending rows that brought `rows` rows:
    /// a pause where there were none, and the next read otherwise.
    pub fn after_pending(&self, rows: usize) -> (r: SyncAction)
        ensures
            r == if rows == 0 {
                SyncAction::Sleep { secs: 5 }
            } else {
                SyncAction::FetchPending { limit: 100 }
            },
    {
        if rows == 0 {
            SyncAction::Sleep { secs: IDLE_SLEEP_SECS }
        } else {
            SyncAction::FetchPending { limit: PAGE_SIZE }
        }
    }

    /// The status of a claimed row after it was applied: `synced` where it
    /// stored a record, and `pending` again where it did not.
    pub fn status_after(&self, stored: bool) -> (r: &'static str)
        ensures
            r@ == if stored {
                "synced"@
            } else {
                "pending"@
            },
    {
        if stored {
            "synced"
        } else {
            "pending"
        }
    }

    /// What an admin write of a tool puts into the table: the key, the type
    /// and the JSON text of the tool.
    pub fn put_tds(&self, id: &str, value: &TDS) -> (r: (String, &'static str, String))
        ensures
            r.0@ == id@,
            r.1@ == "TDS"@,
            r.2@ == json_text(encode_tds(value@)),
    {
        (id.to_string(), XdsKind::Tds.as_str(), render_json(&value.to_json()))
    }

    /// What an admin write of an instance puts into the table.
    pub fn put_ids(&self, id: &str, value: &IDS) -> (r: (String, &'static str, String))
        ensures
            r.0@ == id@,
            r.1@ == "IDS"@,
            r.2@ == json_text(encode_ids(value@)),
    {
        (id.to_string(), XdsKind::Ids.as_str(), render_json(&value.to_json()))
    }

    /// Whether an admin delete removed something: the row was there, and
    /// the delete touched a row.
    pub fn delete(&self, found: bool, rows_affected: u64) -> (r: bool)
        ensures
            r == (found && rows_affected > 0),
    {
        found && rows_affected > 0
    }
}

/// The driver for a Redis store, which serves nothing yet.
#[derive(Debug, Clone, Copy, PartialEq, Eq, Structural)]
pub struct RedisDataSource;

impl RedisDataSource {
    pub fn new() -> (r: RedisDataSource)
        ensures
            r == RedisDataSource,
    {
        RedisDataSource
    }

    pub fn put(&self) -> (r: StoreError)
        ensures
            r matches StoreError::NotImplemented(what) && what@ == "Redis put"@,
    {
        StoreError::NotImplemented("Redis put".to_string())
    }

    pub fn get(&self) -> (r: StoreError)
        ensures
            r matches StoreError::NotImplemented(what) && what@ == "Redis get"@,
    {
        StoreError::NotImplemented("Redis get".to_string())
    }

    pub fn delete(&self) -> (r: StoreError)
        ensures
            r matches StoreError::NotImplemented(what) && what@ == "Redis delete"@,
    {
        StoreError::NotImplemented("Redis delete".to_string())
    }
}

/// The driver in use.
#[derive(Debug, Clone, Copy, PartialEq, Eq, Structural)]
pub enum DataSourceEnum {
    Etcd(EtcdDataSource),
    Mysql(MysqlDataSource),
}

/// After a PUT event whose value describes a tool, a lookup of the key of
/// the event finds that tool.
pub proof fn lemma_put_event_is_seen(c: CacheView, key: Seq<char>, text: Seq<char>)
    requires
        tds_of_text(text) is Some,
    ensures
        tds_event(c, EtcdEventType::Put, key, Some(text)).get_tds(key) == tds_of_text(text),
        tds_event(c, EtcdEventType::Put, key, Some(text)).get_tds_by_name(
            tds_of_text(text)->0.name,
        ) == tds_of_text(text),
{
}

/// The scan and the watch of the instances leave the tools and the name
/// index as they are.
pub proof fn lemma_instances_leave_tools(
    c: CacheView,
    pairs: Seq<(Seq<char>, Seq<char>)>,
    events: Seq<WatchEventView>,
    n: int,
)
    ensures
        ids_loaded(c, pairs, n).tds_by_id == c.tds_by_id,
        ids_loaded(c, pairs, n).tds_by_name == c.tds_by_name,
        ids_watched(c, events, n).tds_by_id == c.tds_by_id,
        ids_watched(c, events, n).tds_by_name == c.tds_by_name,
    decreases n,
{
    if n > 0 {
        lemma_instances_leave_tools(c, pairs, events, n - 1);
    }
}

/// After a run of the driver whose watch of the tools ended with a PUT
/// whose value describes a tool, a lookup of the key of that event finds
/// the tool, and so does a lookup of its name.
pub proof fn lemma_run_sees_last_put(
    c: CacheView,
    tds_pairs: Seq<(Seq<char>, Seq<char>)>,
    tds_events: Seq<WatchEventView>,
    ids_pairs: Seq<(Seq<char>, Seq<char>)>,
    ids_events: Seq<WatchEventView>,
)
    requires
        tds_events.len() > 0,
        tds_events.last().event_type == EtcdEventType::Put,
        tds_events.last().value is Some,
        tds_of_text(tds_events.last().value->0) is Some,
    ensures
        fetched_and_watched(c, tds_pairs, tds_events, ids_pairs, ids_events).get_tds(
            tds_events.last().key,
        ) == tds_of_text(tds_events.last().value->0),
        fetched_and_watched(c, tds_pairs, tds_events, ids_pairs, ids_events).get_tds_by_name(
            tds_of_text(tds_events.last().value->0)->0.name,
        ) == tds_of_text(tds_events.last().value->0),
{
    let n = tds_events.len() as int;
    let before = tds_watched(tds_loaded(c, tds_pairs, tds_pairs.len() as int), tds_events, n - 1);
    let after = tds_watched(tds_loaded(c, tds_pairs, tds_pairs.len() as int), tds_events, n);
    lemma_put_event_is_seen(before, tds_events.last().key, tds_events.last().value->0);
    lemma_instances_leave_tools(after, ids_pairs, ids_events, ids_pairs.len() as int);
    lemma_instances_leave_tools(
        ids_loaded(after, ids_pairs, ids_pairs.len() as int),
        ids_pairs,
        ids_events,
        ids_events.len() as int,
    );
}

/// After a run of the driver whose watch of the tools ended with a DELETE,
/// a lookup of the key of that event finds nothing.
pub proof fn lemma_run_sees_last_delete(
    c: CacheView,
    tds_pairs: Seq<(Seq<char>, Seq<char>)>,
    tds_events: Seq<WatchEventView>,
    ids_pairs: Seq<(Seq<char>, Seq<char>)>,
    ids_events: Seq<WatchEventView>,
)
    requires
        tds_events.len() > 0,
        tds_events.last().event_type == EtcdEventType::Delete,
    ensures
        fetched_and_watched(c, tds_pairs, tds_events, ids_pairs, ids_events).get_tds(
            tds_events.last().key,
        ) is None,
{
    let n = tds_events.len() as int;
    let after = tds_watched(tds_loaded(c, tds_pairs, tds_pairs.len() as int), tds_events, n);
    lemma_instances_leave_tools(after, ids_pairs, ids_events, ids_pairs.len() as int);
    lemma_instances_leave_tools(
        ids_loaded(after, ids_pairs, ids_pairs.len() as int),
        ids_pairs,
        ids_events,
        ids_events.len() as int,
    );
}

/// After a DELETE event, a lookup of the key of the event finds nothing,
/// and no name leads to the key any more; a DELETE for a key under which
/// nothing is stored changes nothing.
pub proof fn lemma_delete_event_is_seen(c: CacheView, key: Seq<char>, value: Option<Seq<char>>)
    requires
        c.wf(),
    ensures
        tds_event(c, EtcdEventType::Delete, key, value).get_tds(key) is None,
        forall|n: Seq<char>|
            c.tds_by_name.dom().contains(n) && #[trigger] c.tds_by_name[n] == key ==> tds_event(
                c,
                EtcdEventType::Delete,
                key,
                value,
            ).get_tds_by_name(n) is None,
        c.get_tds(key) is None ==> tds_event(c, EtcdEventType::Delete, key, value) == c,
{
    crate::cache::lemma_get_after_remove(c, key);
}

/// What a list of instances stands for.
pub open spec fn instances_view(list: Seq<IDS>) -> Seq<IdsView> {
    Seq::new(list.len(), |i: int| list[i]@)
}

/// The tools that the first `n` stored texts describe, in their order;
/// `None` where one of them describes no tool.
pub open spec fn all_tds(values: Seq<Seq<char>>, n: int) -> Option<Seq<TdsView>>
    decreases n,
{
    if n <= 0 || n > values.len() {
        Some(Seq::empty())
    } else {
        match (all_tds(values, n - 1), tds_of_text(values[n - 1])) {
            (Some(found), Some(t)) => Some(found.push(t)),
            _ => None,
        }
    }
}

/// The instances that the first `n` stored texts describe, in their order;
/// `None` where one of them describes no instance.
pub open spec fn all_ids(values: Seq<Seq<char>>, n: int) -> Option<Seq<IdsView>>
    decreases n,
{
    if n <= 0 || n > values.len() {
        Some(Seq::empty())
    } else {
        match (all_ids(values, n - 1), ids_of_text(values[n - 1])) {
            (Some(found), Some(t)) => Some(found.push(t)),
            _ => None,
        }
    }
}

/// Once a text describes no tool, no longer list can be read.
pub proof fn lemma_all_tds_stays_none(values: Seq<Seq<char>>, i: int, n: int)
    requires
        0 < i <= n <= values.len(),
        all_tds(values, i) is None,
    ensures
        all_tds(values, n) is None,
    decreases n - i,
{
    if i < n {
        lemma_all_tds_stays_none(values, i, n - 1);
    }
}

/// Once a text describes no instance, no longer list can be read.
pub proof fn lemma_all_ids_stays_none(values: Seq<Seq<char>>, i: int, n: int)
    requires
        0 < i <= n <= values.len(),
        all_ids(values, i) is None,
    ensures
        all_ids(values, n) is None,
    decreases n - i,
{
    if i < n {
        lemma_all_ids_stays_none(values, i, n - 1);
    }
}

/// All the tools of a scan of the store; one text that describes no tool
/// fails the whole read.
pub fn get_all_tds(values: &Vec<String>) -> (r: Result<Vec<TDS>, StoreError>)
    ensures
        match all_tds(texts_view(values@), values@.len() as int) {
            Some(found) => r matches Ok(list) && tools_view(list@) == found,
            None => r matches Err(StoreError::Unreadable),
        },
{
    let ghost texts = texts_view(values@);
    let mut out: Vec<TDS> = Vec::new();
    let mut i: usize = 0;
    assert(tools_view(out@) =~= Seq::empty());
    while i < values.len()
        invariant
            i <= values@.len(),
            texts == texts_view(values@),
            all_tds(texts, i as int) == Some(tools_view(out@)),
        decreases values@.len() - i,
    {
        match parse_json(values[i].as_str()) {
            Some(doc) => match TDS::from_json(&doc) {
                Some(t) => {
                    let ghost before = tools_view(out@);
                    let ghost tv = t@;
                    out.push(t);
                    assert(tools_view(out@) =~= before.push(tv));
                },
                None => {
                    proof {
                        lemma_all_tds_stays_none(texts, i + 1, values@.len() as int);
                    }
                    return Err(StoreError::Unreadable);
                },
            },
            None => {
                proof {
                    lemma_all_tds_stays_none(texts, i + 1, values@.len() as int);
                }
                return Err(StoreError::Unreadable);
            },
        }
        i += 1;
    }
    Ok(out)
}

/// All the instances of a scan of the store; one text that describes no
/// instance fails the whole read.
pub fn get_all_ids(values: &Vec<String>) -> (r: Result<Vec<IDS>, StoreError>)
    ensures
        match all_ids(texts_view(values@), values@.len() as int) {
            Some(found) => r matches Ok(list) && instances_view(list@) == found,
            None => r matches Err(StoreError::Unreadable),
        },
{
    let ghost texts = texts_view(values@);
    let mut out: Vec<IDS> = Vec::new();
    let mut i: usize = 0;
    assert(instances_view(out@) =~= Seq::empty());
    while i < values.len()
        invariant
            i <= values@.len(),
            texts == texts_view(values@),
            all_ids(texts, i as int) == Some(instances_view(out@)),
        decreases values@.len() - i,
    {
        match parse_json(values[i].as_str()) {
            Some(doc) => match IDS::from_json(&doc) {
                Some(t) => {
                    let ghost before = instances_view(out@);
                    let ghost tv = t@;
                    out.push(t);
                    assert(instances_view(out@) =~= before.push(tv));
                },
                None => {
                    proof {
                        lemma_all_ids_stays_none(texts, i + 1, values@.len() as int);
                    }
                    return Err(StoreError::Unreadable);
                },
            },
            None => {
                proof {
                    lemma_all_ids_stays_none(texts, i + 1, values@.len() as int);
                }
                return Err(StoreError::Unreadable);
            },
        }
        i += 1;
    }
    Ok(out)
}

} // verus!
