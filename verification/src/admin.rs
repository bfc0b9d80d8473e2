//! The admin surface: the bodies it reads, the records it makes of them,
//! and what it answers.

use crate::datasource::{get_ids, get_tds, ids_of_text, tds_of_text};
use crate::json::{members_view, parse_json, parsed_json, Json, JsonValue};
use crate::rest::{RestAPIError, RestAPIResponse, RestFailure, ValidatedJson};
use crate::text::joined;
use crate::xds::{
    decode_ext, encode_ids, encode_tds, read_texts, texts_member, texts_view, IdsView, TDSx,
    TdsView, ValidationError, IDS, TDS,
};
use vstd::prelude::*;

verus! {

/// The body of an admin write of an instance: the instance without its id.
#[derive(Debug, PartialEq, Eq)]
pub struct IDSCmd {
    pub name: String,
    pub tool_ids: Vec<String>,
    pub metadata: String,
}

/// The body of an admin write of a tool: the tool without its id.
#[derive(Debug, PartialEq, Eq)]
pub struct TDSCmd {
    pub name: String,
    pub description: String,
    pub input_schema: Vec<(String, Json)>,
    pub tds_ext_info: TDSx,
}

/// Makes an instance of a body and the id from the URL.
pub trait IntoIDS {
    fn into_ids(self, id: String) -> IDS;
}

/// Makes a tool of a body and the id from the URL.
pub trait IntoTDS {
    fn into_tds(self, id: String) -> TDS;
}

impl IntoIDS for IDSCmd {
    fn into_ids(self, id: String) -> (r: IDS)
        ensures
            r@ == (IdsView {
                id: id@,
                name: self.name@,
                tool_ids: texts_view(self.tool_ids@),
                metadata: self.metadata@,
            }),
    {
        IDS { id, name: self.name, tool_ids: self.tool_ids, metadata: self.metadata }
    }
}

impl IntoTDS for TDSCmd {
    fn into_tds(self, id: String) -> (r: TDS)
        ensures
            r@ == (TdsView {
                id: id@,
                name: self.name@,
                description: self.description@,
                input_schema: members_view(self.input_schema@),
                ext: self.tds_ext_info@,
            }),
    {
        TDS {
            id,
            name: self.name,
            description: self.description,
            input_schema: self.input_schema,
            tds_ext_info: self.tds_ext_info,
        }
    }
}

/// A body describes an instance when it is an object with the strings
/// `name` and `metadata` and the array of strings `tool_ids`.
pub open spec fn ids_cmd_shape(doc: JsonValue) -> bool {
    &&& doc.str_member("name"@) is Some
    &&& texts_member(doc, "tool_ids"@) is Some
    &&& doc.str_member("metadata"@) is Some
}

/// A body describes a tool when it is an object with the strings `name`
/// and `description`, the object `input_schema` and the binding
/// `tds_ext_info`.
pub open spec fn tds_cmd_shape(doc: JsonValue) -> bool {
    &&& doc.str_member("name"@) is Some
    &&& doc.str_member("description"@) is Some
    &&& doc.map_member("input_schema"@) is Some
    &&& doc.get("tds_ext_info"@) is Some
    &&& decode_ext(doc.get("tds_ext_info"@)->0) is Some
}

impl IDSCmd {
    /// Reads the body of an admin write of an instance.
    pub fn from_json(doc: &Json) -> (r: Option<IDSCmd>)
        ensures
            r is Some <==> ids_cmd_shape(doc@),
            r matches Some(c) ==> c.name@ == doc@.str_member("name"@)->0 && texts_view(
                c.tool_ids@,
            ) == texts_member(doc@, "tool_ids"@)->0 && c.metadata@ == doc@.str_member(
                "metadata"@,
            )->0,
    {
        let name = doc.str_member("name")?;
        let tool_ids = read_texts(doc, "tool_ids")?;
        let metadata = doc.str_member("metadata")?;
        Some(IDSCmd { name, tool_ids, metadata })
    }
}

impl TDSCmd {
    /// Reads the body of an admin write of a tool.
    pub fn from_json(doc: &Json) -> (r: Option<TDSCmd>)
        ensures
            r is Some <==> tds_cmd_shape(doc@),
            r matches Some(c) ==> c.name@ == doc@.str_member("name"@)->0 && c.description@
                == doc@.str_member("description"@)->0 && members_view(c.input_schema@)
                == doc@.map_member("input_schema"@)->0 && c.tds_ext_info@ == decode_ext(
                doc@.get("tds_ext_info"@)->0,
            )->0,
    {
        let name = doc.str_member("name")?;
        let description = doc.str_member("description")?;
        let input_schema = doc.map_member("input_schema")?;
        let tds_ext_info = TDSx::from_json(doc.get("tds_ext_info")?)?;
        Some(TDSCmd { name, description, input_schema, tds_ext_info })
    }
}

/// The failure with which a refused record is reported.
pub open spec fn refusal(e: ValidationError) -> RestFailure {
    RestFailure { error: e.spec_message(), status: 400 }
}

/// The failure with which an unreadable body is reported.
pub open spec fn unreadable_body() -> RestFailure {
    RestFailure { error: "Failed to parse the request body as JSON"@, status: 400 }
}

/// The body of a tool write that was read from a document, if the document
/// has the shape of one.
pub fn tds_cmd_of(parsed: Option<Json>) -> (r: Result<ValidatedJson<TDSCmd>, RestAPIError>)
    ensures
        r is Ok <==> (parsed matches Some(doc) && tds_cmd_shape(doc@)),
        r matches Err(e) ==> e@ == unreadable_body(),
        r matches Ok(v) ==> v.0.name@ == parsed->0@.str_member("name"@)->0 && v.0.description@
            == parsed->0@.str_member("description"@)->0 && members_view(v.0.input_schema@)
            == parsed->0@.map_member("input_schema"@)->0 && v.0.tds_ext_info@ == decode_ext(
            parsed->0@.get("tds_ext_info"@)->0,
        )->0,
{
    match parsed {
        Some(doc) => match TDSCmd::from_json(&doc) {
            Some(cmd) => Ok(ValidatedJson(cmd)),
            None => Err(
                RestAPIError::bad_request("Failed to parse the request body as JSON".to_string()),
            ),
        },
        None => Err(
            RestAPIError::bad_request("Failed to parse the request body as JSON".to_string()),
        ),
    }
}

/// The body of an instance write that was read from a document, if the
/// document has the shape of one.
pub fn ids_cmd_of(parsed: Option<Json>) -> (r: Result<ValidatedJson<IDSCmd>, RestAPIError>)
    ensures
        r is Ok <==> (parsed matches Some(doc) && ids_cmd_shape(doc@)),
        r matches Err(e) ==> e@ == unreadable_body(),
        r matches Ok(v) ==> v.0.name@ == parsed->0@.str_member("name"@)->0 && texts_view(
            v.0.tool_ids@,
        ) == texts_member(parsed->0@, "tool_ids"@)->0 && v.0.metadata@
            == parsed->0@.str_member("metadata"@)->0,
{
    match parsed {
        Some(doc) => match IDSCmd::from_json(&doc) {
            Some(cmd) => Ok(ValidatedJson(cmd)),
            None => Err(
                RestAPIError::bad_request("Failed to parse the request body as JSON".to_string()),
            ),
        },
        None => Err(
            RestAPIError::bad_request("Failed to parse the request body as JSON".to_string()),
        ),
    }
}

/// Reads the body of a tool write from its text.
pub fn read_tds_cmd(body: &str) -> (r: Result<ValidatedJson<TDSCmd>, RestAPIError>)
    ensures
        r is Ok <==> (parsed_json(body@) matches Some(doc) && tds_cmd_shape(doc)),
        r matches Err(e) ==> e@ == unreadable_body(),
        r matches Ok(v) ==> v.0.name@ == parsed_json(body@)->0.str_member("name"@)->0
            && v.0.description@ == parsed_json(body@)->0.str_member("description"@)->0
            && members_view(v.0.input_schema@) == parsed_json(body@)->0.map_member(
            "input_schema"@,
        )->0 && v.0.tds_ext_info@ == decode_ext(parsed_json(body@)->0.get("tds_ext_info"@)->0)->0,
{
    tds_cmd_of(parse_json(body))
}

/// Reads the body of an instance write from its text.
pub fn read_ids_cmd(body: &str) -> (r: Result<ValidatedJson<IDSCmd>, RestAPIError>)
    ensures
        r is Ok <==> (parsed_json(body@) matches Some(doc) && ids_cmd_shape(doc)),
        r matches Err(e) ==> e@ == unreadable_body(),
        r matches Ok(v) ==> v.0.name@ == parsed_json(body@)->0.str_member("name"@)->0
            && texts_view(v.0.tool_ids@) == texts_member(parsed_json(body@)->0, "tool_ids"@)->0
            && v.0.metadata@ == parsed_json(body@)->0.str_member("metadata"@)->0,
{
    ids_cmd_of(parse_json(body))
}

/// The tool that an admin write stores: the body with the id from the URL,
/// if the tool is accepted.
pub fn handle_put_tds(tds_id: String, tds_cmd: ValidatedJson<TDSCmd>) -> (r: Result<
    TDS,
    RestAPIError,
>)
    ensures
        ({
            let t = TdsView {
                id: tds_id@,
                name: tds_cmd.0.name@,
                description: tds_cmd.0.description@,
                input_schema: members_view(tds_cmd.0.input_schema@),
                ext: tds_cmd.0.tds_ext_info@,
            };
            match t.validate() {
                Ok(_) => r matches Ok(tds) && tds@ == t,
                Err(e) => r matches Err(f) && f@ == refusal(e),
            }
        }),
{
    let tds = tds_cmd.0.into_tds(tds_id);
    match tds.validate() {
        Ok(_) => Ok(tds),
        Err(e) => Err(RestAPIError::bad_request(e.message().to_string())),
    }
}

/// The instance that an admin write stores: the body with the id from the
/// URL, if the instance is accepted.
pub fn handle_put_ids(ids_id: String, ids_cmd: ValidatedJson<IDSCmd>) -> (r: Result<
    IDS,
    RestAPIError,
>)
    ensures
        ({
            let t = IdsView {
                id: ids_id@,
                name: ids_cmd.0.name@,
                tool_ids: texts_view(ids_cmd.0.tool_ids@),
                metadata: ids_cmd.0.metadata@,
            };
            match t.validate() {
                Ok(_) => r matches Ok(ids) && ids@ == t,
                Err(e) => r matches Err(f) && f@ == refusal(e),
            }
        }),
{
    let ids = ids_cmd.0.into_ids(ids_id);
    match ids.validate() {
        Ok(_) => Ok(ids),
        Err(e) => Err(RestAPIError::bad_request(e.message().to_string())),
    }
}

/// The text of a truth value.
pub open spec fn bool_text(b: bool) -> Seq<char> {
    if b {
        "true"@
    } else {
        "false"@
    }
}

/// What an admin delete of a tool answers: whether something was deleted.
pub fn handle_del_tds(id: &str, deleted: bool) -> (r: RestAPIResponse)
    ensures
        r.code == 200,
        r.message@ == "success"@,
        r.data matches Some(d) && d@ == JsonValue::Str(
            "TDS `"@ + id@ + "` delete result: "@ + bool_text(deleted),
        ),
{
    let mut text = joined("TDS `", id);
    text.append("` delete result: ");
    text.append(if deleted { "true" } else { "false" });
    RestAPIResponse::success(Json::string(text.as_str()))
}

/// What an admin delete of an instance answers: whether something was
/// deleted.
pub fn handle_del_ids(id: &str, deleted: bool) -> (r: RestAPIResponse)
    ensures
        r.code == 200,
        r.message@ == "success"@,
        r.data matches Some(d) && d@ == JsonValue::Str(
            "IDS `"@ + id@ + "` delete result: "@ + bool_text(deleted),
        ),
{
    let mut text = joined("IDS `", id);
    text.append("` delete result: ");
    text.append(if deleted { "true" } else { "false" });
    RestAPIResponse::success(Json::string(text.as_str()))
}

/// What an admin read of a tool answers: the stored tool, or status 500
/// with the reason why there is none to show.
pub fn handle_get_tds(id: &str, stored: Option<String>) -> (r: Result<RestAPIResponse, RestAPIError>)
    ensures
        match stored {
            Some(text) => match tds_of_text(text@) {
                Some(t) => r matches Ok(resp) && resp.code == 200 && resp.message@ == "success"@
                    && (resp.data matches Some(d) && d@ == encode_tds(t)),
                None => r matches Err(e) && e@ == (RestFailure {
                    error: "Failed to deserialize the stored record"@,
                    status: 500,
                }),
            },
            None => r matches Err(e) && e@ == (RestFailure {
                error: "Key `"@ + id@ + "` not found"@,
                status: 500,
            }),
        },
{
    match get_tds(id, stored) {
        Ok(tds) => Ok(RestAPIResponse::success(tds.to_json())),
        Err(e) => Err(RestAPIError::internal(e.message())),
    }
}

/// What an admin read of an instance answers.
pub fn handle_get_ids(id: &str, stored: Option<String>) -> (r: Result<RestAPIResponse, RestAPIError>)
    ensures
        match stored {
            Some(text) => match ids_of_text(text@) {
                Some(t) => r matches Ok(resp) && resp.code == 200 && resp.message@ == "success"@
                    && (resp.data matches Some(d) && d@ == encode_ids(t)),
                None => r matches Err(e) && e@ == (RestFailure {
                    error: "Failed to deserialize the stored record"@,
                    status: 500,
                }),
            },
            None => r matches Err(e) && e@ == (RestFailure {
                error: "Key `"@ + id@ + "` not found"@,
                status: 500,
            }),
        },
{
    match get_ids(id, stored) {
        Ok(ids) => Ok(RestAPIResponse::success(ids.to_json())),
        Err(e) => Err(RestAPIError::internal(e.message())),
    }
}

} // verus!
