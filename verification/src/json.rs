//! JSON documents as the gateway sees them: a tree of plain values, with the
//! lookups the protocol needs.

use vstd::prelude::*;

verus! {

broadcast use vstd::std_specs::vec::group_vec_axioms;

/// A JSON document held by the gateway.
///
/// A number that is a non-negative integer below 2^64 is `Unsigned`; any
/// other number is carried as the reader made it. An object keeps its
/// members in document order; a lookup finds the first member of a name.
#[derive(Debug, PartialEq, Eq)]
pub enum Json {
    Null,
    Bool(bool),
    Unsigned(u64),
    Number(serde_json::Number),
    Str(String),
    Array(Vec<Json>),
    Object(Vec<(String, Json)>),
}

/// The mathematical value of a [`Json`] document.
pub enum JsonValue {
    Null,
    Bool(bool),
    Unsigned(u64),
    Number(serde_json::Number),
    Str(Seq<char>),
    Array(Seq<JsonValue>),
    Object(Seq<(Seq<char>, JsonValue)>),
}

/// The members of an object, each name with its value.
pub type Members = Seq<(Seq<char>, JsonValue)>;

/// The value of the first member named `key` at or after position `from`.
pub open spec fn member_from(members: Members, key: Seq<char>, from: int) -> Option<JsonValue>
    decreases members.len() - from,
{
    if from < 0 || from >= members.len() {
        None
    } else if members[from].0 == key {
        Some(members[from].1)
    } else {
        member_from(members, key, from + 1)
    }
}

/// The value of the first member named `key`.
pub open spec fn member(members: Members, key: Seq<char>) -> Option<JsonValue> {
    member_from(members, key, 0)
}

/// A member is found at the first position that bears its name.
pub proof fn lemma_member_at(members: Members, key: Seq<char>, at: int)
    requires
        0 <= at < members.len(),
        members[at].0 == key,
        forall|j: int| 0 <= j < at ==> (#[trigger] members[j]).0 != key,
    ensures
        member(members, key) == Some(members[at].1),
{
    lemma_member_from(members, key, at, 0);
}

proof fn lemma_member_from(members: Members, key: Seq<char>, at: int, from: int)
    requires
        0 <= from <= at < members.len(),
        members[at].0 == key,
        forall|j: int| 0 <= j < at ==> (#[trigger] members[j]).0 != key,
    ensures
        member_from(members, key, from) == Some(members[at].1),
    decreases at - from,
{
    if from < at {
        lemma_member_from(members, key, at, from + 1);
    }
}

/// No two members bear the same name.
pub open spec fn distinct_names(members: Members) -> bool {
    forall|i: int, j: int|
        0 <= i < j < members.len() ==> (#[trigger] members[i]).0 != (#[trigger] members[j]).0
}

/// Whether a member after position `i` bears the name of the member at `i`.
pub open spec fn named_later(members: Members, i: int) -> bool {
    exists|j: int| i < j < members.len() && (#[trigger] members[j]).0 == members[i].0
}

/// The first `n` members as a map holds them: of several members of one
/// name only the last is kept.
pub open spec fn as_map_upto(members: Members, n: int) -> Members
    decreases n,
{
    if n <= 0 || n > members.len() {
        Seq::empty()
    } else if named_later(members, n - 1) {
        as_map_upto(members, n - 1)
    } else {
        as_map_upto(members, n - 1).push(members[n - 1])
    }
}

/// The members as a map holds them: every name once, with the value of the
/// last member of that name, in the order of those last members.
pub open spec fn as_map(members: Members) -> Members {
    as_map_upto(members, members.len() as int)
}

/// Every member that is kept is a member that no later member renames.
pub proof fn lemma_as_map_keeps(members: Members, n: int)
    requires
        0 <= n <= members.len(),
    ensures
        forall|a: int|
            0 <= a < as_map_upto(members, n).len() ==> exists|i: int|
                0 <= i < n && !named_later(members, i) && members[i] == #[trigger] as_map_upto(
                    members,
                    n,
                )[a],
        distinct_names(as_map_upto(members, n)),
    decreases n,
{
    if n > 0 {
        lemma_as_map_keeps(members, n - 1);
        let before = as_map_upto(members, n - 1);
        let now = as_map_upto(members, n);
        if !named_later(members, n - 1) {
            assert forall|a: int| 0 <= a < now.len() implies exists|i: int|
                0 <= i < n && !named_later(members, i) && members[i] == #[trigger] now[a] by {
                if a < before.len() {
                    let i = choose|i: int|
                        0 <= i < n - 1 && !named_later(members, i) && members[i] == before[a];
                    assert(members[i] == now[a]);
                } else {
                    assert(members[n - 1] == now[a]);
                }
            }
            assert forall|a: int, b: int| 0 <= a < b < now.len() implies (#[trigger] now[a]).0 != (
            #[trigger] now[b]).0 by {
                if b == before.len() {
                    let i = choose|i: int|
                        0 <= i < n - 1 && !named_later(members, i) && members[i] == before[a];
                    if members[i].0 == members[n - 1].0 {
                        assert(named_later(members, i));
                    }
                }
            }
        }
    }
}

/// What a map holds has no name twice.
pub proof fn lemma_as_map_is_distinct(members: Members)
    ensures
        distinct_names(as_map(members)),
{
    lemma_as_map_keeps(members, members.len() as int);
}

/// Members without a name twice are what a map holds of them.
pub proof fn lemma_as_map_of_distinct(members: Members, n: int)
    requires
        distinct_names(members),
        0 <= n <= members.len(),
    ensures
        as_map_upto(members, n) == members.subrange(0, n),
    decreases n,
{
    if n > 0 {
        lemma_as_map_of_distinct(members, n - 1);
        assert(!named_later(members, n - 1));
        assert(as_map_upto(members, n) =~= members.subrange(0, n));
    } else {
        assert(as_map_upto(members, n) =~= members.subrange(0, n));
    }
}

/// What a list of documents stands for.
pub open spec fn items_view(items: Seq<Json>) -> Seq<JsonValue> {
    Seq::new(items.len(), |i: int| items[i]@)
}

/// What a list of named documents stands for.
pub open spec fn members_view(members: Seq<(String, Json)>) -> Members {
    Seq::new(members.len(), |i: int| (members[i].0@, members[i].1@))
}

/// What an optional document stands for.
pub open spec fn opt_view(j: Option<&Json>) -> Option<JsonValue> {
    match j {
        Some(j) => Some(j@),
        None => None,
    }
}

impl JsonValue {
    /// The member named `key`, where the value is an object that has one.
    pub open spec fn get(self, key: Seq<char>) -> Option<JsonValue> {
        match self {
            JsonValue::Object(members) => member(members, key),
            _ => None,
        }
    }

    /// The text of a string value.
    pub open spec fn as_str(self) -> Option<Seq<char>> {
        match self {
            JsonValue::Str(s) => Some(s),
            _ => None,
        }
    }

    /// The number, where it is a non-negative integer below 2^64.
    pub open spec fn as_u64(self) -> Option<u64> {
        match self {
            JsonValue::Unsigned(n) => Some(n),
            _ => None,
        }
    }

    /// The members of an object.
    pub open spec fn as_object(self) -> Option<Members> {
        match self {
            JsonValue::Object(members) => Some(members),
            _ => None,
        }
    }

    /// The items of an array.
    pub open spec fn as_array(self) -> Option<Seq<JsonValue>> {
        match self {
            JsonValue::Array(items) => Some(items),
            _ => None,
        }
    }

    /// The text of the member named `key`, where that member is a string.
    pub open spec fn str_member(self, key: Seq<char>) -> Option<Seq<char>> {
        match self.get(key) {
            Some(v) => v.as_str(),
            None => None,
        }
    }

    /// The members of the member named `key`, where that member is an object.
    pub open spec fn object_member(self, key: Seq<char>) -> Option<Members> {
        match self.get(key) {
            Some(v) => v.as_object(),
            None => None,
        }
    }

    /// The members of the member named `key` as a map holds them, where that
    /// member is an object.
    pub open spec fn map_member(self, key: Seq<char>) -> Option<Members> {
        match self.object_member(key) {
            Some(m) => Some(as_map(m)),
            None => None,
        }
    }

    /// The number under `key`, where it is a non-negative integer below 2^64.
    pub open spec fn u64_member(self, key: Seq<char>) -> Option<u64> {
        match self.get(key) {
            Some(v) => v.as_u64(),
            None => None,
        }
    }

    /// The text of a string value, and the empty text for any other value.
    pub open spec fn text_or_empty(self) -> Seq<char> {
        match self {
            JsonValue::Str(s) => s,
            _ => Seq::empty(),
        }
    }
}

/// What a document stands for.
pub open spec fn json_value(j: Json) -> JsonValue
    decreases j,
{
    match j {
        Json::Null => JsonValue::Null,
        Json::Bool(b) => JsonValue::Bool(b),
        Json::Unsigned(n) => JsonValue::Unsigned(n),
        Json::Number(n) => JsonValue::Number(n),
        Json::Str(s) => JsonValue::Str(s@),
        Json::Array(items) => JsonValue::Array(values_upto(items@, items@.len() as int)),
        Json::Object(members) => JsonValue::Object(
            members_upto(members@, members@.len() as int),
        ),
    }
}

/// What the first `n` of a list of documents stand for.
pub open spec fn values_upto(items: Seq<Json>, n: int) -> Seq<JsonValue>
    decreases items, n,
{
    if n <= 0 || n > items.len() {
        Seq::empty()
    } else {
        values_upto(items, n - 1).push(json_value(items[n - 1]))
    }
}

/// What the first `n` of a list of named documents stand for.
pub open spec fn members_upto(members: Seq<(String, Json)>, n: int) -> Members
    decreases members, n,
{
    if n <= 0 || n > members.len() {
        Seq::empty()
    } else {
        members_upto(members, n - 1).push((members[n - 1].0@, json_value(members[n - 1].1)))
    }
}

impl View for Json {
    type V = JsonValue;

    open spec fn view(&self) -> JsonValue {
        json_value(*self)
    }
}

proof fn lemma_values_upto(items: Seq<Json>, n: int)
    requires
        0 <= n <= items.len(),
    ensures
        values_upto(items, n) == items_view(items.subrange(0, n)),
    decreases n,
{
    if n > 0 {
        lemma_values_upto(items, n - 1);
    }
    assert(values_upto(items, n) =~= items_view(items.subrange(0, n)));
}

proof fn lemma_members_upto(members: Seq<(String, Json)>, n: int)
    requires
        0 <= n <= members.len(),
    ensures
        members_upto(members, n) == members_view(members.subrange(0, n)),
    decreases n,
{
    if n > 0 {
        lemma_members_upto(members, n - 1);
    }
    assert(members_upto(members, n) =~= members_view(members.subrange(0, n)));
}

/// An array stands for the values of its items, and an object for the
/// values of its members.
pub proof fn lemma_view_of_parts(j: Json)
    ensures
        j matches Json::Array(items) ==> j@ == JsonValue::Array(items_view(items@)),
        j matches Json::Object(members) ==> j@ == JsonValue::Object(members_view(members@)),
{
    match j {
        Json::Array(items) => {
            lemma_values_upto(items@, items@.len() as int);
            assert(items@.subrange(0, items@.len() as int) =~= items@);
        },
        Json::Object(members) => {
            lemma_members_upto(members@, members@.len() as int);
            assert(members@.subrange(0, members@.len() as int) =~= members@);
        },
        _ => {},
    }
}

/// The first member named `key` in a list of members.
pub fn find_member<'a>(members: &'a Vec<(String, Json)>, key: &str) -> (r: Option<&'a Json>)
    ensures
        opt_view(r) == member(members_view(members@), key@),
{
    let mut i: usize = 0;
    while i < members.len()
        invariant
            i <= members@.len(),
            member(members_view(members@), key@) == member_from(
                members_view(members@),
                key@,
                i as int,
            ),
        decreases members@.len() - i,
    {
        if *members[i].0.as_str() == *key {
            return Some(&members[i].1);
        }
        i += 1;
    }
    None
}

impl Clone for Json {
    /// A copy that stands for the same value.
    fn clone(&self) -> (r: Json)
        ensures
            r@ == self@,
        decreases self,
    {
        proof {
            lemma_view_of_parts(*self);
        }
        match self {
            Json::Null => Json::Null,
            Json::Bool(b) => Json::Bool(*b),
            Json::Unsigned(n) => Json::Unsigned(*n),
            Json::Number(n) => Json::Number(n.clone()),
            Json::Str(s) => Json::Str(s.clone()),
            Json::Array(items) => {
                let out = clone_items(items);
                let r = Json::Array(out);
                proof {
                    lemma_view_of_parts(r);
                }
                r
            },
            Json::Object(members) => {
                let out = clone_members(members);
                let r = Json::Object(out);
                proof {
                    lemma_view_of_parts(r);
                }
                r
            },
        }
    }
}

/// A copy of a list of documents that stands for the same values.
pub fn clone_items(items: &Vec<Json>) -> (r: Vec<Json>)
    ensures
        items_view(r@) == items_view(items@),
    decreases items,
{
    let mut out: Vec<Json> = Vec::new();
    let mut i: usize = 0;
    while i < items.len()
        invariant
            i <= items@.len(),
            out@.len() == i,
            forall|j: int| 0 <= j < i ==> out@[j]@ == items@[j]@,
        decreases items@.len() - i,
    {
        let item = items[i].clone();
        out.push(item);
        i += 1;
    }
    assert(items_view(out@) =~= items_view(items@));
    out
}

/// A copy of a list of named documents that stands for the same values.
pub fn clone_members(members: &Vec<(String, Json)>) -> (r: Vec<(String, Json)>)
    ensures
        members_view(r@) == members_view(members@),
    decreases members,
{
    let mut out: Vec<(String, Json)> = Vec::new();
    let mut i: usize = 0;
    while i < members.len()
        invariant
            i <= members@.len(),
            out@.len() == i,
            forall|j: int|
                0 <= j < i ==> out@[j].0@ == members@[j].0@ && out@[j].1@ == members@[j].1@,
        decreases members@.len() - i,
    {
        let name = members[i].0.clone();
        let value = members[i].1.clone();
        out.push((name, value));
        i += 1;
    }
    assert(members_view(out@) =~= members_view(members@));
    out
}

impl Json {
    /// The member named `key`, where the document is an object that has one.
    pub fn get(&self, key: &str) -> (r: Option<&Json>)
        ensures
            opt_view(r) == self@.get(key@),
    {
        proof {
            lemma_view_of_parts(*self);
        }
        match self {
            Json::Object(members) => find_member(members, key),
            _ => None,
        }
    }

    /// The text of a string document.
    pub fn as_str(&self) -> (r: Option<&str>)
        ensures
            r is Some <==> self@.as_str() is Some,
            r matches Some(s) ==> self@.as_str() == Some(s@),
    {
        match self {
            Json::Str(s) => Some(s.as_str()),
            _ => None,
        }
    }

    /// The number, where the document is a non-negative integer below 2^64.
    pub fn as_u64(&self) -> (r: Option<u64>)
        ensures
            r == self@.as_u64(),
    {
        match self {
            Json::Unsigned(n) => Some(*n),
            _ => None,
        }
    }

    /// The members of an object document.
    pub fn as_object(&self) -> (r: Option<&Vec<(String, Json)>>)
        ensures
            r is Some <==> self@.as_object() is Some,
            r matches Some(m) ==> self@.as_object() == Some(members_view(m@)),
    {
        proof {
            lemma_view_of_parts(*self);
        }
        match self {
            Json::Object(members) => Some(members),
            _ => None,
        }
    }

    /// The items of an array document.
    pub fn as_array(&self) -> (r: Option<&Vec<Json>>)
        ensures
            r is Some <==> self@.as_array() is Some,
            r matches Some(a) ==> self@.as_array() == Some(items_view(a@)),
    {
        proof {
            lemma_view_of_parts(*self);
        }
        match self {
            Json::Array(items) => Some(items),
            _ => None,
        }
    }
}

/// What an optional document stands for.
pub open spec fn opt_json(j: Option<Json>) -> Option<JsonValue> {
    match j {
        Some(j) => Some(j@),
        None => None,
    }
}

/// What an optional text stands for.
pub open spec fn opt_text(s: Option<String>) -> Option<Seq<char>> {
    match s {
        Some(s) => Some(s@),
        None => None,
    }
}

/// What an optional list of named documents stands for.
pub open spec fn opt_members(m: Option<Vec<(String, Json)>>) -> Option<Members> {
    match m {
        Some(m) => Some(members_view(m@)),
        None => None,
    }
}

impl Json {
    /// A copy of the text of the member named `key`, where that member is a
    /// string.
    pub fn str_member(&self, key: &str) -> (r: Option<String>)
        ensures
            opt_text(r) == self@.str_member(key@),
    {
        match self.get(key) {
            Some(v) => match v.as_str() {
                Some(s) => Some(s.to_string()),
                None => None,
            },
            None => None,
        }
    }

    /// A copy of the members of the member named `key`, where that member is
    /// an object.
    pub fn object_member(&self, key: &str) -> (r: Option<Vec<(String, Json)>>)
        ensures
            opt_members(r) == self@.object_member(key@),
    {
        match self.get(key) {
            Some(v) => match v.as_object() {
                Some(m) => Some(clone_members(m)),
                None => None,
            },
            None => None,
        }
    }

    /// The members of the member named `key` as a map holds them, where that
    /// member is an object: no name twice.
    pub fn map_member(&self, key: &str) -> (r: Option<Vec<(String, Json)>>)
        ensures
            opt_members(r) == self@.map_member(key@),
            r matches Some(m) ==> distinct_names(members_view(m@)),
    {
        match self.get(key) {
            Some(v) => match v.as_object() {
                Some(m) => Some(into_map(m)),
                None => None,
            },
            None => None,
        }
    }

    /// The number under `key`, where it is a non-negative integer below 2^64.
    pub fn u64_member(&self, key: &str) -> (r: Option<u64>)
        ensures
            r == self@.u64_member(key@),
    {
        match self.get(key) {
            Some(v) => v.as_u64(),
            None => None,
        }
    }

    /// The string document with the text `s`.
    pub fn string(s: &str) -> (r: Json)
        ensures
            r@ == JsonValue::Str(s@),
    {
        Json::Str(s.to_string())
    }

    /// The object document with a copy of `members`.
    pub fn object(members: &Vec<(String, Json)>) -> (r: Json)
        ensures
            r@ == JsonValue::Object(members_view(members@)),
    {
        let r = Json::Object(clone_members(members));
        proof {
            lemma_view_of_parts(r);
        }
        r
    }
}

/// The members as a map holds them: of several members of one name only
/// the last is kept.
pub fn into_map(members: &Vec<(String, Json)>) -> (r: Vec<(String, Json)>)
    ensures
        members_view(r@) == as_map(members_view(members@)),
        distinct_names(members_view(r@)),
{
    let ghost all = members_view(members@);
    let mut out: Vec<(String, Json)> = Vec::new();
    let mut i: usize = 0;
    assert(members_view(out@) =~= Seq::empty());
    while i < members.len()
        invariant
            i <= members@.len(),
            all == members_view(members@),
            members_view(out@) == as_map_upto(all, i as int),
        decreases members@.len() - i,
    {
        let mut later = false;
        let mut j: usize = i + 1;
        while j < members.len()
            invariant
                i < j <= members@.len(),
                all == members_view(members@),
                later == (exists|k: int| i < k < j && (#[trigger] all[k]).0 == all[i as int].0),
            decreases members@.len() - j,
        {
            if *members[j].0.as_str() == *members[i].0.as_str() {
                assert(all[j as int].0 == all[i as int].0);
                later = true;
            }
            j += 1;
        }
        assert(later == named_later(all, i as int));
        if !later {
            let ghost before = members_view(out@);
            out.push((members[i].0.clone(), members[i].1.clone()));
            assert(members_view(out@) =~= before.push(all[i as int]));
        }
        i += 1;
    }
    proof {
        lemma_as_map_is_distinct(all);
    }
    out
}

/// Appends the member `name` with the value `value`.
pub fn push_member(members: &mut Vec<(String, Json)>, name: &str, value: Json)
    ensures
        members_view(final(members)@) == members_view(old(members)@).push((name@, value@)),
{
    members.push((name.to_string(), value));
    assert(members_view(members@) =~= members_view(old(members)@).push((name@, value@)));
}

/// The object document with the members `members`.
pub fn object_of(members: Vec<(String, Json)>) -> (r: Json)
    ensures
        r@ == JsonValue::Object(members_view(members@)),
{
    let r = Json::Object(members);
    proof {
        lemma_view_of_parts(r);
    }
    r
}

/// The array document with the items `items`.
pub fn array_of(items: Vec<Json>) -> (r: Json)
    ensures
        r@ == JsonValue::Array(items_view(items@)),
{
    let r = Json::Array(items);
    proof {
        lemma_view_of_parts(r);
    }
    r
}

/// `serde_json::Number`, a JSON number as serde_json holds it. Its inside is
/// not looked at: a number is carried from the reader to the writer.
#[verifier::external_type_specification]
#[verifier::external_body]
pub struct ExNumber(serde_json::Number);

/// `Number`'s `clone`: a copy that is the same number.
pub assume_specification[ <serde_json::Number as Clone>::clone ](n: &serde_json::Number) -> (r:
    serde_json::Number)
    ensures
        r == *n,
;

/// `serde_json::Value`, a JSON value as serde_json holds it. Its inside is
/// not looked at: a value is read from a text, copied into a [`Json`] or out
/// of one, and written as a text.
#[verifier::external_type_specification]
#[verifier::external_body]
pub struct ExValue(serde_json::Value);

/// The value that `serde_json::from_str` reads from a text, if it reads
/// one.
pub uninterp spec fn parsed_value(text: Seq<char>) -> Option<serde_json::Value>;

/// The document that a `serde_json::Value` holds.
pub uninterp spec fn value_json(v: serde_json::Value) -> JsonValue;

/// The `serde_json::Value` that is made of a document.
pub uninterp spec fn as_value(doc: JsonValue) -> serde_json::Value;

/// The text that `serde_json::to_string` writes for a value.
pub uninterp spec fn value_text(v: serde_json::Value) -> Seq<char>;

/// The document that a text holds when it is read as JSON, if it can be
/// read.
pub open spec fn parsed_json(text: Seq<char>) -> Option<JsonValue> {
    match parsed_value(text) {
        Some(v) => Some(value_json(v)),
        None => None,
    }
}

/// The JSON text that is written for a document.
pub open spec fn json_text(doc: JsonValue) -> Seq<char> {
    value_text(as_value(doc))
}

/// `serde_json::from_str`: the value that it reads from the text, and
/// `None` where it reports an error.
#[verifier::external_body]
fn read_value(text: &str) -> (r: Option<serde_json::Value>)
    ensures
        r == parsed_value(text@),
{
    serde_json::from_str::<serde_json::Value>(text).ok()
}

/// `serde_json::to_string`: the text that it writes for the value, and
/// the empty text where it reports an error.
#[verifier::external_body]
fn write_value(v: &serde_json::Value) -> (r: String)
    ensures
        r@ == value_text(*v),
{
    serde_json::to_string(v).unwrap_or_default()
}

/// Copies a `serde_json::Value` into a [`Json`], variant by variant. A number
/// for which `Number::as_u64` answers becomes `Unsigned`; any other is
/// carried as it is.
#[verifier::external_body]
fn json_from_value(v: &serde_json::Value) -> (j: Json)
    ensures
        j@ == value_json(*v),
{
    match v {
        serde_json::Value::Null => Json::Null,
        serde_json::Value::Bool(b) => Json::Bool(*b),
        serde_json::Value::Number(n) => n.as_u64().map_or_else(|| Json::Number(n.clone()), Json::Unsigned),
        serde_json::Value::String(s) => Json::Str(s.clone()),
        serde_json::Value::Array(a) => Json::Array(a.iter().map(json_from_value).collect()),
        serde_json::Value::Object(o) => Json::Object(
            o.iter().map(|(k, x)| (k.clone(), json_from_value(x))).collect(),
        ),
    }
}

/// Copies a [`Json`] into a `serde_json::Value`, variant by variant.
#[verifier::external_body]
fn json_to_value(j: &Json) -> (v: serde_json::Value)
    ensures
        v == as_value(j@),
{
    match j {
        Json::Null => serde_json::Value::Null,
        Json::Bool(b) => serde_json::Value::Bool(*b),
        Json::Unsigned(n) => serde_json::Value::from(*n),
        Json::Number(n) => serde_json::Value::Number(n.clone()),
        Json::Str(s) => serde_json::Value::String(s.clone()),
        Json::Array(a) => serde_json::Value::Array(a.iter().map(json_to_value).collect()),
        Json::Object(o) => serde_json::Value::Object(
            o.iter().map(|(k, x)| (k.clone(), json_to_value(x))).collect(),
        ),
    }
}

/// Reads a JSON text.
pub fn parse_json(text: &str) -> (r: Option<Json>)
    ensures
        opt_json(r) == parsed_json(text@),
{
    match read_value(text) {
        Some(v) => Some(json_from_value(&v)),
        None => None,
    }
}

/// Writes a document as JSON text.
pub fn render_json(doc: &Json) -> (r: String)
    ensures
        r@ == json_text(doc@),
{
    let v = json_to_value(doc);
    write_value(&v)
}

} // verus!
