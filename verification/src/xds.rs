//! The two kinds of catalog record: a tool (TDS) and an instance that
//! serves a selection of tools (IDS).

use crate::json::{
    array_of, clone_members, distinct_names, items_view, lemma_as_map_is_distinct,
    lemma_as_map_of_distinct, lemma_member_at, members_view, object_of, push_member, Json,
    JsonValue, Members,
};
use vstd::prelude::*;

verus! {

/// How a tool is bound to a remote HTTP endpoint.
#[derive(Debug, PartialEq, Eq)]
pub struct TDSx {
    /// The origin of the remote API.
    pub domain: String,
    /// The HTTP method of the call.
    pub method: String,
    /// The path template; `{name}` marks a place for a path argument.
    pub path: String,
    /// The arguments that a call must supply, by name.
    pub required_params: Vec<(String, Json)>,
    /// Further attributes of the endpoint.
    pub ext_info: Vec<(String, Json)>,
}

/// One tool.
#[derive(Debug, PartialEq, Eq)]
pub struct TDS {
    pub id: String,
    /// The name under which clients call the tool.
    pub name: String,
    pub description: String,
    /// The JSON Schema of the tool's input, handed on as it is.
    pub input_schema: Vec<(String, Json)>,
    pub tds_ext_info: TDSx,
}

/// One endpoint served by the gateway.
#[derive(Debug, PartialEq, Eq)]
pub struct IDS {
    pub id: String,
    pub name: String,
    /// The tools of the instance, in the order in which they are listed.
    pub tool_ids: Vec<String>,
    /// A JSON text with the member `proto_type`, which selects the transport.
    pub metadata: String,
}

/// What a [`TDSx`] stands for.
pub struct TdsExtView {
    pub domain: Seq<char>,
    pub method: Seq<char>,
    pub path: Seq<char>,
    pub required_params: Members,
    pub ext_info: Members,
}

/// What a [`TDS`] stands for.
pub struct TdsView {
    pub id: Seq<char>,
    pub name: Seq<char>,
    pub description: Seq<char>,
    pub input_schema: Members,
    pub ext: TdsExtView,
}

/// What an [`IDS`] stands for.
pub struct IdsView {
    pub id: Seq<char>,
    pub name: Seq<char>,
    pub tool_ids: Seq<Seq<char>>,
    pub metadata: Seq<char>,
}

/// What a list of texts stands for.
pub open spec fn texts_view(texts: Seq<String>) -> Seq<Seq<char>> {
    Seq::new(texts.len(), |i: int| texts[i]@)
}

impl View for TDSx {
    type V = TdsExtView;

    open spec fn view(&self) -> TdsExtView {
        TdsExtView {
            domain: self.domain@,
            method: self.method@,
            path: self.path@,
            required_params: members_view(self.required_params@),
            ext_info: members_view(self.ext_info@),
        }
    }
}

impl View for TDS {
    type V = TdsView;

    open spec fn view(&self) -> TdsView {
        TdsView {
            id: self.id@,
            name: self.name@,
            description: self.description@,
            input_schema: members_view(self.input_schema@),
            ext: self.tds_ext_info@,
        }
    }
}

impl View for IDS {
    type V = IdsView;

    open spec fn view(&self) -> IdsView {
        IdsView {
            id: self.id@,
            name: self.name@,
            tool_ids: texts_view(self.tool_ids@),
            metadata: self.metadata@,
        }
    }
}

/// A copy of a list of texts.
pub fn clone_texts(texts: &Vec<String>) -> (r: Vec<String>)
    ensures
        texts_view(r@) == texts_view(texts@),
{
    let mut out: Vec<String> = Vec::new();
    let mut i: usize = 0;
    while i < texts.len()
        invariant
            i <= texts@.len(),
            out@.len() == i,
            forall|j: int| 0 <= j < i ==> out@[j]@ == texts@[j]@,
        decreases texts@.len() - i,
    {
        out.push(texts[i].clone());
        i += 1;
    }
    assert(texts_view(out@) =~= texts_view(texts@));
    out
}

impl Clone for TDSx {
    fn clone(&self) -> (r: TDSx)
        ensures
            r@ == self@,
    {
        TDSx {
            domain: self.domain.clone(),
            method: self.method.clone(),
            path: self.path.clone(),
            required_params: clone_members(&self.required_params),
            ext_info: clone_members(&self.ext_info),
        }
    }
}

impl Clone for TDS {
    fn clone(&self) -> (r: TDS)
        ensures
            r@ == self@,
    {
        TDS {
            id: self.id.clone(),
            name: self.name.clone(),
            description: self.description.clone(),
            input_schema: clone_members(&self.input_schema),
            tds_ext_info: self.tds_ext_info.clone(),
        }
    }
}

impl Clone for IDS {
    fn clone(&self) -> (r: IDS)
        ensures
            r@ == self@,
    {
        IDS {
            id: self.id.clone(),
            name: self.name.clone(),
            tool_ids: clone_texts(&self.tool_ids),
            metadata: self.metadata.clone(),
        }
    }
}

/// Why a record is refused.
#[derive(Debug, Clone, Copy, PartialEq, Eq, Structural)]
pub enum ValidationError {
    TdsIdEmpty,
    TdsNameEmpty,
    IdsIdEmpty,
    IdsNameEmpty,
    IdsToolIdsEmpty,
}

impl ValidationError {
    /// The text with which the refusal is reported.
    pub open spec fn spec_message(self) -> Seq<char> {
        match self {
            ValidationError::TdsIdEmpty => "TDS validation failed: id is empty"@,
            ValidationError::TdsNameEmpty => "TDS validation failed: name is empty"@,
            ValidationError::IdsIdEmpty => "IDS validation failed: id is empty"@,
            ValidationError::IdsNameEmpty => "IDS name cannot be empty"@,
            ValidationError::IdsToolIdsEmpty => "IDS tool_ids must contain at least 1 element"@,
        }
    }

    pub fn message(self) -> (r: &'static str)
        ensures
            r@ == self.spec_message(),
    {
        match self {
            ValidationError::TdsIdEmpty => "TDS validation failed: id is empty",
            ValidationError::TdsNameEmpty => "TDS validation failed: name is empty",
            ValidationError::IdsIdEmpty => "IDS validation failed: id is empty",
            ValidationError::IdsNameEmpty => "IDS name cannot be empty",
            ValidationError::IdsToolIdsEmpty => "IDS tool_ids must contain at least 1 element",
        }
    }
}

impl TdsView {
    /// A tool is accepted when it has an id and a name.
    pub open spec fn validate(self) -> Result<(), ValidationError> {
        if self.id.len() == 0 {
            Err(ValidationError::TdsIdEmpty)
        } else if self.name.len() == 0 {
            Err(ValidationError::TdsNameEmpty)
        } else {
            Ok(())
        }
    }
}

impl IdsView {
    /// An instance is accepted when it has an id, a name and at least one
    /// tool.
    pub open spec fn validate(self) -> Result<(), ValidationError> {
        if self.id.len() == 0 {
            Err(ValidationError::IdsIdEmpty)
        } else if self.name.len() == 0 {
            Err(ValidationError::IdsNameEmpty)
        } else if self.tool_ids.len() == 0 {
            Err(ValidationError::IdsToolIdsEmpty)
        } else {
            Ok(())
        }
    }
}

impl TDS {
    pub fn validate(&self) -> (r: Result<(), ValidationError>)
        ensures
            r == self@.validate(),
    {
        if self.id.as_str().is_empty() {
            Err(ValidationError::TdsIdEmpty)
        } else if self.name.as_str().is_empty() {
            Err(ValidationError::TdsNameEmpty)
        } else {
            Ok(())
        }
    }
}

impl IDS {
    pub fn validate(&self) -> (r: Result<(), ValidationError>)
        ensures
            r == self@.validate(),
    {
        if self.id.as_str().is_empty() {
            Err(ValidationError::IdsIdEmpty)
        } else if self.name.as_str().is_empty() {
            Err(ValidationError::IdsNameEmpty)
        } else if self.tool_ids.len() == 0 {
            Err(ValidationError::IdsToolIdsEmpty)
        } else {
            Ok(())
        }
    }
}

impl TdsExtView {
    /// The required parameters and the further attributes have no name
    /// twice.
    pub open spec fn wf(self) -> bool {
        distinct_names(self.required_params) && distinct_names(self.ext_info)
    }
}

impl TdsView {
    /// The input schema and the maps of the binding have no name twice. A
    /// tool that is read from a document is so.
    pub open spec fn wf(self) -> bool {
        distinct_names(self.input_schema) && self.ext.wf()
    }
}

/// The texts of a list of values, where every one of them is a string.
pub open spec fn texts_of(items: Seq<JsonValue>) -> Option<Seq<Seq<char>>> {
    if forall|i: int| 0 <= i < items.len() ==> (#[trigger] items[i]) is Str {
        Some(Seq::new(items.len(), |i: int| items[i]->Str_0))
    } else {
        None
    }
}

/// The string values of a list of texts.
pub open spec fn texts_wire(texts: Seq<Seq<char>>) -> Seq<JsonValue> {
    Seq::new(texts.len(), |i: int| JsonValue::Str(texts[i]))
}

/// The JSON form of the binding of a tool.
pub open spec fn encode_ext(x: TdsExtView) -> JsonValue {
    JsonValue::Object(
        seq![
            ("domain"@, JsonValue::Str(x.domain)),
            ("method"@, JsonValue::Str(x.method)),
            ("path"@, JsonValue::Str(x.path)),
            ("required_params"@, JsonValue::Object(x.required_params)),
            ("ext_info"@, JsonValue::Object(x.ext_info)),
        ],
    )
}

/// The JSON form of a tool.
pub open spec fn encode_tds(t: TdsView) -> JsonValue {
    JsonValue::Object(
        seq![
            ("id"@, JsonValue::Str(t.id)),
            ("name"@, JsonValue::Str(t.name)),
            ("description"@, JsonValue::Str(t.description)),
            ("input_schema"@, JsonValue::Object(t.input_schema)),
            ("tds_ext_info"@, encode_ext(t.ext)),
        ],
    )
}

/// The JSON form of an instance.
pub open spec fn encode_ids(t: IdsView) -> JsonValue {
    JsonValue::Object(
        seq![
            ("id"@, JsonValue::Str(t.id)),
            ("name"@, JsonValue::Str(t.name)),
            ("tool_ids"@, JsonValue::Array(texts_wire(t.tool_ids))),
            ("metadata"@, JsonValue::Str(t.metadata)),
        ],
    )
}

/// The binding that a document describes: an object with the strings
/// `domain`, `method` and `path` and the objects `required_params` and
/// `ext_info`, each taken as a map. Further members are passed over.
pub open spec fn decode_ext(doc: JsonValue) -> Option<TdsExtView> {
    if doc.str_member("domain"@) is Some && doc.str_member("method"@) is Some && doc.str_member(
        "path"@,
    ) is Some && doc.map_member("required_params"@) is Some && doc.map_member(
        "ext_info"@,
    ) is Some {
        Some(
            TdsExtView {
                domain: doc.str_member("domain"@)->0,
                method: doc.str_member("method"@)->0,
                path: doc.str_member("path"@)->0,
                required_params: doc.map_member("required_params"@)->0,
                ext_info: doc.map_member("ext_info"@)->0,
            },
        )
    } else {
        None
    }
}

/// The tool that a document describes: an object with the strings `id`,
/// `name` and `description`, the object `input_schema`, taken as a map, and
/// the binding `tds_ext_info`. Further members are passed over.
pub open spec fn decode_tds(doc: JsonValue) -> Option<TdsView> {
    if doc.str_member("id"@) is Some && doc.str_member("name"@) is Some && doc.str_member(
        "description"@,
    ) is Some && doc.map_member("input_schema"@) is Some && doc.get("tds_ext_info"@) is Some
        && decode_ext(doc.get("tds_ext_info"@)->0) is Some {
        Some(
            TdsView {
                id: doc.str_member("id"@)->0,
                name: doc.str_member("name"@)->0,
                description: doc.str_member("description"@)->0,
                input_schema: doc.map_member("input_schema"@)->0,
                ext: decode_ext(doc.get("tds_ext_info"@)->0)->0,
            },
        )
    } else {
        None
    }
}

/// The list of texts under `key`: an array of strings.
pub open spec fn texts_member(doc: JsonValue, key: Seq<char>) -> Option<Seq<Seq<char>>> {
    match doc.get(key) {
        Some(JsonValue::Array(items)) => texts_of(items),
        _ => None,
    }
}

/// The instance that a document describes: an object with the strings `id`,
/// `name` and `metadata` and the array of strings `tool_ids`. Further
/// members are passed over.
pub open spec fn decode_ids(doc: JsonValue) -> Option<IdsView> {
    if doc.str_member("id"@) is Some && doc.str_member("name"@) is Some && texts_member(
        doc,
        "tool_ids"@,
    ) is Some && doc.str_member("metadata"@) is Some {
        Some(
            IdsView {
                id: doc.str_member("id"@)->0,
                name: doc.str_member("name"@)->0,
                tool_ids: texts_member(doc, "tool_ids"@)->0,
                metadata: doc.str_member("metadata"@)->0,
            },
        )
    } else {
        None
    }
}

/// What an optional binding stands for.
pub open spec fn opt_ext(t: Option<TDSx>) -> Option<TdsExtView> {
    match t {
        Some(t) => Some(t@),
        None => None,
    }
}

/// What an optional tool stands for.
pub open spec fn opt_tds(t: Option<TDS>) -> Option<TdsView> {
    match t {
        Some(t) => Some(t@),
        None => None,
    }
}

/// What an optional instance stands for.
pub open spec fn opt_ids(t: Option<IDS>) -> Option<IdsView> {
    match t {
        Some(t) => Some(t@),
        None => None,
    }
}

/// What an optional list of texts stands for.
pub open spec fn opt_texts(t: Option<Vec<String>>) -> Option<Seq<Seq<char>>> {
    match t {
        Some(t) => Some(texts_view(t@)),
        None => None,
    }
}

/// A copy of the texts under `key`, where that member is an array of
/// strings.
pub fn read_texts(doc: &Json, key: &str) -> (r: Option<Vec<String>>)
    ensures
        opt_texts(r) == texts_member(doc@, key@),
{
    let items = match doc.get(key) {
        Some(v) => match v.as_array() {
            Some(items) => items,
            None => {
                return None;
            },
        },
        None => {
            return None;
        },
    };
    let ghost values = items_view(items@);
    let mut out: Vec<String> = Vec::new();
    let mut i: usize = 0;
    while i < items.len()
        invariant
            i <= items@.len(),
            out@.len() == i,
            values == items_view(items@),
            texts_member(doc@, key@) == texts_of(values),
            forall|j: int| 0 <= j < i ==> (#[trigger] values[j]) is Str && out@[j]@
                == values[j]->Str_0,
        decreases items@.len() - i,
    {
        match items[i].as_str() {
            Some(s) => {
                out.push(s.to_string());
            },
            None => {
                assert(!(values[i as int] is Str));
                return None;
            },
        }
        i += 1;
    }
    assert(texts_view(out@) =~= texts_of(values)->0);
    Some(out)
}

impl TDSx {
    /// Reads the binding of a tool from a document.
    pub fn from_json(doc: &Json) -> (r: Option<TDSx>)
        ensures
            opt_ext(r) == decode_ext(doc@),
    {
        let domain = doc.str_member("domain")?;
        let method = doc.str_member("method")?;
        let path = doc.str_member("path")?;
        let required_params = doc.map_member("required_params")?;
        let ext_info = doc.map_member("ext_info")?;
        Some(TDSx { domain, method, path, required_params, ext_info })
    }

    /// Writes the binding of a tool as a document.
    pub fn to_json(&self) -> (r: Json)
        ensures
            r@ == encode_ext(self@),
    {
        let mut m: Vec<(String, Json)> = Vec::new();
        push_member(&mut m, "domain", Json::string(self.domain.as_str()));
        push_member(&mut m, "method", Json::string(self.method.as_str()));
        push_member(&mut m, "path", Json::string(self.path.as_str()));
        push_member(&mut m, "required_params", Json::object(&self.required_params));
        push_member(&mut m, "ext_info", Json::object(&self.ext_info));
        assert(members_view(m@) =~= encode_ext(self@)->Object_0);
        object_of(m)
    }
}

impl TDS {
    /// Reads a tool from a document.
    pub fn from_json(doc: &Json) -> (r: Option<TDS>)
        ensures
            opt_tds(r) == decode_tds(doc@),
    {
        let id = doc.str_member("id")?;
        let name = doc.str_member("name")?;
        let description = doc.str_member("description")?;
        let input_schema = doc.map_member("input_schema")?;
        let tds_ext_info = TDSx::from_json(doc.get("tds_ext_info")?)?;
        Some(TDS { id, name, description, input_schema, tds_ext_info })
    }

    /// Writes a tool as a document.
    pub fn to_json(&self) -> (r: Json)
        ensures
            r@ == encode_tds(self@),
    {
        let mut m: Vec<(String, Json)> = Vec::new();
        push_member(&mut m, "id", Json::string(self.id.as_str()));
        push_member(&mut m, "name", Json::string(self.name.as_str()));
        push_member(&mut m, "description", Json::string(self.description.as_str()));
        push_member(&mut m, "input_schema", Json::object(&self.input_schema));
        push_member(&mut m, "tds_ext_info", self.tds_ext_info.to_json());
        assert(members_view(m@) =~= encode_tds(self@)->Object_0);
        object_of(m)
    }
}

impl IDS {
    /// Reads an instance from a document.
    pub fn from_json(doc: &Json) -> (r: Option<IDS>)
        ensures
            opt_ids(r) == decode_ids(doc@),
    {
        let id = doc.str_member("id")?;
        let name = doc.str_member("name")?;
        let tool_ids = read_texts(doc, "tool_ids")?;
        let metadata = doc.str_member("metadata")?;
        Some(IDS { id, name, tool_ids, metadata })
    }

    /// Writes an instance as a document.
    pub fn to_json(&self) -> (r: Json)
        ensures
            r@ == encode_ids(self@),
    {
        let mut items: Vec<Json> = Vec::new();
        let mut i: usize = 0;
        while i < self.tool_ids.len()
            invariant
                i <= self.tool_ids@.len(),
                items@.len() == i,
                forall|j: int| 0 <= j < i ==> items@[j]@ == JsonValue::Str(self.tool_ids@[j]@),
            decreases self.tool_ids@.len() - i,
        {
            items.push(Json::string(self.tool_ids[i].as_str()));
            i += 1;
        }
        assert(items_view(items@) =~= texts_wire(self@.tool_ids));
        let mut m: Vec<(String, Json)> = Vec::new();
        push_member(&mut m, "id", Json::string(self.id.as_str()));
        push_member(&mut m, "name", Json::string(self.name.as_str()));
        push_member(&mut m, "tool_ids", array_of(items));
        push_member(&mut m, "metadata", Json::string(self.metadata.as_str()));
        assert(members_view(m@) =~= encode_ids(self@)->Object_0);
        object_of(m)
    }
}

/// A tool that is read from a document has no name twice in its maps.
pub proof fn lemma_decoded_is_wf(doc: JsonValue)
    ensures
        decode_ext(doc) matches Some(x) ==> x.wf(),
        decode_tds(doc) matches Some(t) ==> t.wf(),
{
    if decode_ext(doc) is Some {
        lemma_as_map_is_distinct(doc.object_member("required_params"@)->0);
        lemma_as_map_is_distinct(doc.object_member("ext_info"@)->0);
    }
    if decode_tds(doc) is Some {
        lemma_as_map_is_distinct(doc.object_member("input_schema"@)->0);
        let ext = doc.get("tds_ext_info"@)->0;
        lemma_as_map_is_distinct(ext.object_member("required_params"@)->0);
        lemma_as_map_is_distinct(ext.object_member("ext_info"@)->0);
    }
}

/// Reading the written form of a binding gives the binding back.
pub proof fn lemma_ext_round_trip(x: TdsExtView)
    requires
        x.wf(),
    ensures
        decode_ext(encode_ext(x)) == Some(x),
{
    lemma_as_map_of_distinct(x.required_params, x.required_params.len() as int);
    lemma_as_map_of_distinct(x.ext_info, x.ext_info.len() as int);
    assert(x.required_params.subrange(0, x.required_params.len() as int) =~= x.required_params);
    assert(x.ext_info.subrange(0, x.ext_info.len() as int) =~= x.ext_info);
    reveal_strlit("domain");
    reveal_strlit("method");
    reveal_strlit("path");
    reveal_strlit("required_params");
    reveal_strlit("ext_info");
    let m = encode_ext(x)->Object_0;
    assert("method"@[0] != "domain"@[0]);
    assert("path"@.len() == 4 && "domain"@.len() == 6 && "method"@.len() == 6);
    assert("required_params"@.len() == 15 && "ext_info"@.len() == 8);
    lemma_member_at(m, "domain"@, 0);
    lemma_member_at(m, "method"@, 1);
    lemma_member_at(m, "path"@, 2);
    lemma_member_at(m, "required_params"@, 3);
    lemma_member_at(m, "ext_info"@, 4);
}

/// Reading the written form of a tool gives the tool back.
pub proof fn lemma_tds_round_trip(t: TdsView)
    requires
        t.wf(),
    ensures
        decode_tds(encode_tds(t)) == Some(t),
{
    lemma_as_map_of_distinct(t.input_schema, t.input_schema.len() as int);
    assert(t.input_schema.subrange(0, t.input_schema.len() as int) =~= t.input_schema);
    reveal_strlit("id");
    reveal_strlit("name");
    reveal_strlit("description");
    reveal_strlit("input_schema");
    reveal_strlit("tds_ext_info");
    lemma_ext_round_trip(t.ext);
    let m = encode_tds(t)->Object_0;
    assert("id"@.len() == 2 && "name"@.len() == 4 && "description"@.len() == 11);
    assert("input_schema"@.len() == 12 && "tds_ext_info"@.len() == 12);
    assert("input_schema"@[0] != "tds_ext_info"@[0]);
    lemma_member_at(m, "id"@, 0);
    lemma_member_at(m, "name"@, 1);
    lemma_member_at(m, "description"@, 2);
    lemma_member_at(m, "input_schema"@, 3);
    lemma_member_at(m, "tds_ext_info"@, 4);
}

/// Reading the written form of an instance gives the instance back.
pub proof fn lemma_ids_round_trip(t: IdsView)
    ensures
        decode_ids(encode_ids(t)) == Some(t),
{
    reveal_strlit("id");
    reveal_strlit("name");
    reveal_strlit("tool_ids");
    reveal_strlit("metadata");
    let m = encode_ids(t)->Object_0;
    assert("id"@.len() == 2 && "name"@.len() == 4);
    assert("tool_ids"@.len() == 8 && "metadata"@.len() == 8);
    assert("tool_ids"@[0] != "metadata"@[0]);
    lemma_member_at(m, "id"@, 0);
    lemma_member_at(m, "name"@, 1);
    lemma_member_at(m, "tool_ids"@, 2);
    lemma_member_at(m, "metadata"@, 3);
    assert(texts_of(texts_wire(t.tool_ids)) == Some(t.tool_ids)) by {
        assert(texts_of(texts_wire(t.tool_ids))->0 =~= t.tool_ids);
    }
}

} // verus!
