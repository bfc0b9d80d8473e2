//! The translation of a `tools/call` request into an outbound HTTP call,
//! and of the remote answer into the result of the call.

use crate::cache::CacheView;
use crate::handler::{Requestx, Responsex};
use crate::headers::list_view;
use crate::json::{
    distinct_names, find_member, member, members_view, opt_view, Json, JsonValue, Members,
};
use crate::protocol::{
    call_request_read, call_request_shape, ToolCallRequest, ToolCallResponse, ToolCallResult,
    ToolContent,
};
use crate::status::{is_success, status_is_success};
use crate::text::{joined, replace_all, replaced};
use vstd::prelude::*;

verus! {

/// Why a tool call did not go through.
#[derive(Debug, PartialEq, Eq)]
pub enum CallToolError {
    /// No tool of that name is in the catalog.
    ToolNotFound(String),
    /// `path` or `query` is there and is not an object.
    ArgumentsNotObject,
    /// A required parameter is missing from `path` or from `query`.
    MissingParameter(String),
    /// The outbound call failed.
    Http(String),
}

/// What a [`CallToolError`] stands for.
pub enum CallFailure {
    ToolNotFound(Seq<char>),
    ArgumentsNotObject,
    MissingParameter(Seq<char>),
    Http(Seq<char>),
}

impl CallFailure {
    /// The text with which the failure is reported.
    pub open spec fn message(self) -> Seq<char> {
        match self {
            CallFailure::ToolNotFound(name) => "TDS not found for name: "@ + name,
            CallFailure::ArgumentsNotObject => "Expected object for arguments"@,
            CallFailure::MissingParameter(key) => "Missing required parameter: "@ + key,
            CallFailure::Http(cause) => cause,
        }
    }
}

impl View for CallToolError {
    type V = CallFailure;

    open spec fn view(&self) -> CallFailure {
        match self {
            CallToolError::ToolNotFound(name) => CallFailure::ToolNotFound(name@),
            CallToolError::ArgumentsNotObject => CallFailure::ArgumentsNotObject,
            CallToolError::MissingParameter(key) => CallFailure::MissingParameter(key@),
            CallToolError::Http(cause) => CallFailure::Http(cause@),
        }
    }
}

impl CallToolError {
    /// The text with which the failure is reported.
    pub fn message(&self) -> (r: String)
        ensures
            r@ == self@.message(),
    {
        match self {
            CallToolError::ToolNotFound(name) => joined("TDS not found for name: ", name.as_str()),
            CallToolError::ArgumentsNotObject => "Expected object for arguments".to_string(),
            CallToolError::MissingParameter(key) => joined(
                "Missing required parameter: ",
                key.as_str(),
            ),
            CallToolError::Http(cause) => cause.clone(),
        }
    }
}

/// The values that `args` gives for the first `n` required parameters, in
/// the order of `required`; the first parameter without a value is reported.
pub open spec fn extracted_upto(required: Members, args: Members, n: int) -> Result<
    Members,
    CallFailure,
>
    decreases n,
{
    if n <= 0 || n > required.len() {
        Ok(Seq::empty())
    } else {
        match extracted_upto(required, args, n - 1) {
            Err(e) => Err(e),
            Ok(found) => match member(args, required[n - 1].0) {
                Some(v) => Ok(found.push((required[n - 1].0, v))),
                None => Err(CallFailure::MissingParameter(required[n - 1].0)),
            },
        }
    }
}

/// The values that an argument object gives for the required parameters.
/// An object that is not there counts as one without members, so that the
/// first required parameter is reported as missing, and nothing is missing
/// where nothing is required. What is there and is no object is refused.
pub open spec fn extracted(required: Members, args: Option<JsonValue>) -> Result<
    Members,
    CallFailure,
> {
    match args {
        None => extracted_upto(required, Seq::empty(), required.len() as int),
        Some(JsonValue::Object(m)) => extracted_upto(required, m, required.len() as int),
        Some(_) => Err(CallFailure::ArgumentsNotObject),
    }
}

/// Once a required parameter is found missing, the report stays the same
/// however many further parameters are looked at.
pub proof fn lemma_first_missing_is_reported(required: Members, args: Members, i: int, n: int)
    requires
        0 < i <= n <= required.len(),
        extracted_upto(required, args, i) is Err,
    ensures
        extracted_upto(required, args, n) == extracted_upto(required, args, i),
    decreases n - i,
{
    if i < n {
        lemma_first_missing_is_reported(required, args, i, n - 1);
    }
}

/// What is extracted bears the names of the required parameters, one for
/// one and in their order, each with the value that the arguments give for
/// it; so it has no name twice where the required parameters have none.
pub proof fn lemma_extracted_names(required: Members, args: Members, n: int)
    requires
        0 <= n <= required.len(),
        extracted_upto(required, args, n) is Ok,
    ensures
        extracted_upto(required, args, n)->Ok_0.len() == n,
        forall|i: int|
            0 <= i < n ==> (#[trigger] extracted_upto(required, args, n)->Ok_0[i]).0
                == required[i].0 && member(args, required[i].0) == Some(
                extracted_upto(required, args, n)->Ok_0[i].1,
            ),
        distinct_names(required) ==> distinct_names(extracted_upto(required, args, n)->Ok_0),
    decreases n,
{
    if n > 0 {
        lemma_extracted_names(required, args, n - 1);
        let found = extracted_upto(required, args, n)->Ok_0;
        if distinct_names(required) {
            assert forall|i: int, j: int| 0 <= i < j < found.len() implies (#[trigger] found[i]).0 != (
            #[trigger] found[j]).0 by {
                assert(found[i].0 == required[i].0);
                assert(found[j].0 == required[j].0);
            }
        }
    }
}

/// What the outcome of an extraction stands for.
pub open spec fn extraction_view(r: Result<Vec<(String, Json)>, CallToolError>) -> Result<
    Members,
    CallFailure,
> {
    match r {
        Ok(found) => Ok(members_view(found@)),
        Err(e) => Err(e@),
    }
}

/// Takes from an argument object the value of every required parameter.
/// What is taken has no name twice where the required parameters have none.
pub fn extract_required_args(required_params: &Vec<(String, Json)>, args_value: Option<&Json>) -> (r:
    Result<Vec<(String, Json)>, CallToolError>)
    ensures
        extraction_view(r) == extracted(members_view(required_params@), opt_view(args_value)),
        r matches Ok(found) ==> found@.len() == required_params@.len() && (distinct_names(
            members_view(required_params@),
        ) ==> distinct_names(members_view(found@))),
{
    let none: Vec<(String, Json)> = Vec::new();
    assert(members_view(none@) =~= Seq::empty());
    let args_map = match args_value {
        Some(v) => match v.as_object() {
            Some(m) => m,
            None => {
                return Err(CallToolError::ArgumentsNotObject);
            },
        },
        None => &none,
    };
    let ghost required = members_view(required_params@);
    let ghost args = members_view(args_map@);
    let mut out: Vec<(String, Json)> = Vec::new();
    let mut i: usize = 0;
    assert(members_view(out@) =~= Seq::empty());
    while i < required_params.len()
        invariant
            i <= required_params@.len(),
            required == members_view(required_params@),
            args == members_view(args_map@),
            extracted(required, opt_view(args_value)) == extracted_upto(
                required,
                args,
                required.len() as int,
            ),
            extracted_upto(required, args, i as int) == Ok::<Members, CallFailure>(
                members_view(out@),
            ),
        decreases required_params@.len() - i,
    {
        let key = &required_params[i].0;
        match find_member(args_map, key.as_str()) {
            Some(value) => {
                let ghost before = members_view(out@);
                out.push((key.clone(), value.clone()));
                assert(members_view(out@) =~= before.push((key@, value@)));
            },
            None => {
                proof {
                    lemma_first_missing_is_reported(
                        required,
                        args,
                        i + 1,
                        required.len() as int,
                    );
                }
                return Err(CallToolError::MissingParameter(key.clone()));
            },
        }
        i += 1;
    }
    proof {
        lemma_extracted_names(required, args, required.len() as int);
    }
    Ok(out)
}

/// The mark in a path template that stands for the argument `key`.
pub open spec fn placeholder(key: Seq<char>) -> Seq<char> {
    seq!['{'] + key + seq!['}']
}

/// The template with the marks of the first `n` arguments filled in, one
/// argument after the other.
pub open spec fn filled_upto(template: Seq<char>, args: Members, n: int) -> Seq<char>
    decreases n,
{
    if n <= 0 || n > args.len() {
        template
    } else {
        replaced(
            filled_upto(template, args, n - 1),
            placeholder(args[n - 1].0),
            args[n - 1].1.text_or_empty(),
        )
    }
}

/// The first `n` arguments as `k=v`, joined by `&`.
pub open spec fn query_upto(args: Members, n: int) -> Seq<char>
    decreases n,
{
    if n <= 0 || n > args.len() {
        Seq::empty()
    } else if n == 1 {
        args[0].0 + seq!['='] + args[0].1.text_or_empty()
    } else {
        query_upto(args, n - 1) + seq!['&'] + args[n - 1].0 + seq!['='] + args[n
            - 1].1.text_or_empty()
    }
}

/// The path and query of the outbound call: the template with every `{k}`
/// replaced by the text of the path argument `k`, followed, where there are
/// query arguments, by `?` and the arguments as `k=v` joined by `&`. An
/// argument that is not a string counts as the empty text; nothing is
/// percent-encoded. Where the arguments have no name twice, as those that
/// are extracted for a tool without a required parameter twice have none,
/// every mark is filled from one argument and every query argument stands
/// once.
pub open spec fn uri_of(pattern: Seq<char>, path_args: Members, query_args: Members) -> Seq<char> {
    let path = filled_upto(pattern, path_args, path_args.len() as int);
    if query_args.len() == 0 {
        path
    } else {
        path + seq!['?'] + query_upto(query_args, query_args.len() as int)
    }
}

/// The text of a string document, and the empty text for any other.
pub fn text_or_empty(value: &Json) -> (r: &str)
    ensures
        r@ == value@.text_or_empty(),
{
    match value.as_str() {
        Some(s) => s,
        None => {
            proof {
                reveal_strlit("");
            }
            ""
        },
    }
}

/// Builds the path and query of the outbound call.
pub fn build_uri_from_pattern(
    url_pattern: &str,
    path_args: &Vec<(String, Json)>,
    query_args: &Vec<(String, Json)>,
) -> (r: String)
    ensures
        r@ == uri_of(url_pattern@, members_view(path_args@), members_view(query_args@)),
{
    let ghost pv = members_view(path_args@);
    let ghost qv = members_view(query_args@);
    let mut url = url_pattern.to_string();
    let mut i: usize = 0;
    while i < path_args.len()
        invariant
            i <= path_args@.len(),
            pv == members_view(path_args@),
            url@ == filled_upto(url_pattern@, pv, i as int),
        decreases path_args@.len() - i,
    {
        let mut mark = "{".to_string();
        mark.append(path_args[i].0.as_str());
        mark.append("}");
        proof {
            reveal_strlit("{");
            reveal_strlit("}");
            assert(mark@ =~= placeholder(pv[i as int].0));
        }
        url = replace_all(url.as_str(), mark.as_str(), text_or_empty(&path_args[i].1));
        i += 1;
    }
    if query_args.len() > 0 {
        let mut query = String::new();
        let mut j: usize = 0;
        while j < query_args.len()
            invariant
                j <= query_args@.len(),
                qv == members_view(query_args@),
                query@ == query_upto(qv, j as int),
            decreases query_args@.len() - j,
        {
            proof {
                reveal_strlit("&");
                reveal_strlit("=");
            }
            let ghost before = query@;
            if j > 0 {
                query.append("&");
            }
            query.append(query_args[j].0.as_str());
            query.append("=");
            query.append(text_or_empty(&query_args[j].1));
            proof {
                if j == 0 {
                    assert(query@ =~= qv[0].0 + seq!['='] + qv[0].1.text_or_empty());
                } else {
                    assert(query@ =~= before + seq!['&'] + qv[j as int].0 + seq!['=']
                        + qv[j as int].1.text_or_empty());
                }
            }
            j += 1;
        }
        proof {
            reveal_strlit("?");
        }
        url.append("?");
        url.append(query.as_str());
        assert(url@ =~= filled_upto(url_pattern@, pv, pv.len() as int) + seq!['?'] + query_upto(
            qv,
            qv.len() as int,
        ));
    }
    url
}

/// How an outbound request is to be made.
#[derive(Debug, PartialEq, Eq)]
pub struct HttpRequestOptions {
    pub method: String,
    pub headers: Option<Vec<(String, String)>>,
    pub body: Option<Json>,
}

/// An outbound request: where it goes and how it is made.
#[derive(Debug, PartialEq, Eq)]
pub struct OutboundCall {
    pub url: String,
    pub options: HttpRequestOptions,
}

/// What an [`OutboundCall`] stands for.
pub struct CallPlan {
    pub url: Seq<char>,
    pub method: Seq<char>,
    pub headers: Option<Seq<(Seq<char>, Seq<char>)>>,
    pub body: Option<JsonValue>,
}

impl View for OutboundCall {
    type V = CallPlan;

    open spec fn view(&self) -> CallPlan {
        CallPlan {
            url: self.url@,
            method: self.options.method@,
            headers: match self.options.headers {
                Some(h) => Some(list_view(h@)),
                None => None,
            },
            body: match self.options.body {
                Some(b) => Some(b@),
                None => None,
            },
        }
    }
}

/// How an outbound request ended.
#[derive(Debug, PartialEq, Eq)]
pub enum HttpOutcome {
    /// The remote side answered, with whatever status.
    Response { status: u16, body: String },
    /// No answer was had.
    Failed { message: String },
}

/// The outbound call for a `tools/call` request: the tool is found by name;
/// every required parameter must be in the `path` object and in the `query`
/// object of the arguments, and an object that is not there has none; the
/// URL is the tool's domain followed by the
/// path and query; the method is the tool's; there are no headers; the body
/// is the `body` argument, if there is one.
pub open spec fn planned_call(cache: CacheView, name: Seq<char>, arguments: Members) -> Result<
    CallPlan,
    CallFailure,
> {
    match cache.get_tds_by_name(name) {
        None => Err(CallFailure::ToolNotFound(name)),
        Some(tds) => match extracted(tds.ext.required_params, member(arguments, "path"@)) {
            Err(e) => Err(e),
            Ok(path_args) => match extracted(
                tds.ext.required_params,
                member(arguments, "query"@),
            ) {
                Err(e) => Err(e),
                Ok(query_args) => Ok(
                    CallPlan {
                        url: tds.ext.domain + uri_of(tds.ext.path, path_args, query_args),
                        method: tds.ext.method,
                        headers: None,
                        body: member(arguments, "body"@),
                    },
                ),
            },
        },
    }
}

/// What the outcome of planning stands for.
pub open spec fn plan_view(r: Result<OutboundCall, CallToolError>) -> Result<CallPlan, CallFailure> {
    match r {
        Ok(c) => Ok(c@),
        Err(e) => Err(e@),
    }
}

/// How a call with the given id and version ends with an outcome: an
/// answer, whatever its status, gives a result with the body as its one
/// piece of text and the error flag for a status outside 2xx; no answer
/// gives an error with the message of the outcome.
pub open spec fn call_ended(
    r: Result<(ToolCallResponse, Responsex), CallToolError>,
    id: u64,
    jsonrpc: Seq<char>,
    outcome: HttpOutcome,
) -> bool {
    match outcome {
        HttpOutcome::Response { status, body } => {
            &&& r matches Ok((resp, respx))
            &&& resp.id == id
            &&& resp.jsonrpc@ == jsonrpc
            &&& resp.result.is_error == !is_success(status)
            &&& resp.result.content@.len() == 1
            &&& resp.result.content@[0].content_type@ == "text"@
            &&& resp.result.content@[0].text@ == body@
            &&& respx.http_status == 200
            &&& respx.protocol_method is None
            &&& respx.initialize_session_id is None
        },
        HttpOutcome::Failed { message } => r matches Err(CallToolError::Http(m)) && m@ == message@,
    }
}

/// The handler of `tools/call`.
#[derive(Debug, Clone, Copy, PartialEq, Eq, Structural)]
pub struct CallToolProtocol;

impl CallToolProtocol {
    /// Reads the request from its envelope.
    pub fn cast(&self, value: &Json) -> (r: Option<ToolCallRequest>)
        ensures
            r is Some <==> call_request_shape(value@),
            r matches Some(q) ==> call_request_read(q, value@),
    {
        ToolCallRequest::from_json(value)
    }

    /// Translates the request into the outbound call that serves it.
    pub fn prepare(&self, req: &ToolCallRequest, reqx: &Requestx) -> (r: Result<
        OutboundCall,
        CallToolError,
    >)
        ensures
            plan_view(r) == planned_call(
                reqx.mcp_cache@,
                req.params.name@,
                members_view(req.params.arguments@),
            ),
    {
        let tds = match reqx.mcp_cache.get_tds_by_name(req.params.name.as_str()) {
            Some(tds) => tds,
            None => {
                return Err(CallToolError::ToolNotFound(req.params.name.clone()));
            },
        };
        let ext = &tds.tds_ext_info;
        let args = &req.params.arguments;
        let path_args = match extract_required_args(
            &ext.required_params,
            find_member(args, "path"),
        ) {
            Ok(found) => found,
            Err(e) => {
                return Err(e);
            },
        };
        let query_args = match extract_required_args(
            &ext.required_params,
            find_member(args, "query"),
        ) {
            Ok(found) => found,
            Err(e) => {
                return Err(e);
            },
        };
        let uri = build_uri_from_pattern(ext.path.as_str(), &path_args, &query_args);
        let url = joined(ext.domain.as_str(), uri.as_str());
        let body = match find_member(args, "body") {
            Some(b) => Some(b.clone()),
            None => None,
        };
        Ok(
            OutboundCall {
                url,
                options: HttpRequestOptions { method: ext.method.clone(), headers: None, body },
            },
        )
    }

    /// Wraps the remote answer as the result of the call: the body as one
    /// piece of text content, and an error flag for a status outside 2xx.
    /// The id and version of the request are echoed.
    pub fn call(&self, req: ToolCallRequest, outcome: HttpOutcome) -> (r: Result<
        (ToolCallResponse, Responsex),
        CallToolError,
    >)
        ensures
            call_ended(r, req.id, req.jsonrpc@, outcome),
    {
        self.finish(req.id, req.jsonrpc, outcome)
    }

    /// Wraps the remote answer as the result of the call with the given id
    /// and version.
    pub fn finish(&self, id: u64, jsonrpc: String, outcome: HttpOutcome) -> (r: Result<
        (ToolCallResponse, Responsex),
        CallToolError,
    >)
        ensures
            call_ended(r, id, jsonrpc@, outcome),
    {
        match outcome {
            HttpOutcome::Response { status, body } => {
                let mut content: Vec<ToolContent> = Vec::new();
                content.push(ToolContent { content_type: "text".to_string(), text: body });
                let result = ToolCallResult { is_error: !status_is_success(status), content };
                let response = ToolCallResponse { id, jsonrpc, result };
                Ok((response, Responsex::default()))
            },
            HttpOutcome::Failed { message } => Err(CallToolError::Http(message)),
        }
    }
}

} // verus!
