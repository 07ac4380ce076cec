//! Decisions of the line-oriented JSON-RPC server that exposes the clients as
//! tools: its method and tool table, error codes, parameter errors, and the
//! choice of resources for a download request.
use crate::client::{downloadable, package_resources, same_text, DataGovClient};
use crate::download::DownloadOutcome;
use crate::error::{ckan_error_text, data_gov_error_text, CkanError, DataGovError};
use crate::model::{Package, Resource, ResourceView};
use crate::text::{join2, join3};
use vstd::prelude::*;

verus! {

broadcast use vstd::string::group_string_axioms;

/// What `str::trim` makes of a text.
pub uninterp spec fn trimmed_of(s: Seq<char>) -> Seq<char>;

/// Relies on `str::trim`: the text without leading and trailing white space;
/// the result depends on the text alone.
#[verifier::external_body]
fn trim_text(s: &str) -> (r: String)
    ensures
        r@ == trimmed_of(s@),
{
    s.trim().to_string()
}

/// An ASCII upper-case letter in lower case; any other character as is.
pub open spec fn ascii_lower_char(c: char) -> char {
    if 'A' <= c <= 'Z' {
        (((c as u8) + 32) as u8) as char
    } else {
        c
    }
}

/// A text with its ASCII letters in lower case.
pub open spec fn ascii_lower(s: Seq<char>) -> Seq<char> {
    s.map_values(|c: char| ascii_lower_char(c))
}

/// A text with its ASCII letters in lower case.
pub fn ascii_lowercase(s: &str) -> (r: String)
    ensures
        r@ == ascii_lower(s@),
{
    let n = s.unicode_len();
    let mut out = String::new();
    let mut i: usize = 0;
    while i < n
        invariant
            n == s@.len(),
            i <= n,
            out@ == ascii_lower(s@.subrange(0, i as int)),
        decreases n - i,
    {
        let c = s.get_char(i);
        let l = if 'A' <= c && c <= 'Z' {
            ((c as u8) + 32) as char
        } else {
            c
        };
        let one = crate::text::char_string(l);
        out.append(one.as_str());
        assert(s@.subrange(0, i + 1) =~= s@.subrange(0, i as int).push(c));
        assert(out@ =~= ascii_lower(s@.subrange(0, i + 1)));
        i = i + 1;
    }
    assert(s@.subrange(0, n as int) =~= s@);
    out
}

/// The methods the server answers, in the order it announces them.
pub open spec fn method_table() -> Seq<Seq<char>> {
    seq![
        "initialize"@,
        "initialized"@,
        "shutdown"@,
        "tools/list"@,
        "data_gov.search"@,
        "data_gov.dataset"@,
        "data_gov.autocompleteDatasets"@,
        "data_gov.listOrganizations"@,
        "data_gov.downloadResources"@,
        "ckan.packageSearch"@,
        "ckan.packageShow"@,
        "ckan.organizationList"@,
    ]
}

/// The methods the server answers, in the order it announces them.
pub fn server_methods() -> (r: Vec<&'static str>)
    ensures
        r@.map_values(|m: &'static str| m@) == method_table(),
{
    let r = vec![
        "initialize",
        "initialized",
        "shutdown",
        "tools/list",
        "data_gov.search",
        "data_gov.dataset",
        "data_gov.autocompleteDatasets",
        "data_gov.listOrganizations",
        "data_gov.downloadResources",
        "ckan.packageSearch",
        "ckan.packageShow",
        "ckan.organizationList",
    ];
    assert(r@.map_values(|m: &'static str| m@) =~= method_table());
    r
}

/// A tool: its name, the method it calls, what it does, and the JSON schema
/// of its arguments (as JSON text).
#[derive(Debug, Clone, Copy)]
pub struct ToolSpec {
    pub tool_name: &'static str,
    pub method_name: &'static str,
    pub description: &'static str,
    pub input_schema: &'static str,
}

/// Tool names and the methods they call, in the order tools are listed.
pub open spec fn tool_table() -> Seq<(Seq<char>, Seq<char>)> {
    seq![
        ("data_gov_search"@, "data_gov.search"@),
        ("data_gov_dataset"@, "data_gov.dataset"@),
        ("data_gov_autocomplete_datasets"@, "data_gov.autocompleteDatasets"@),
        ("data_gov_list_organizations"@, "data_gov.listOrganizations"@),
        ("data_gov_download_resources"@, "data_gov.downloadResources"@),
        ("ckan_package_search"@, "ckan.packageSearch"@),
        ("ckan_package_show"@, "ckan.packageShow"@),
        ("ckan_organization_list"@, "ckan.organizationList"@),
    ]
}

/// The name and method of a tool.
pub open spec fn tool_pair(t: ToolSpec) -> (Seq<char>, Seq<char>) {
    (t.tool_name@, t.method_name@)
}

/// The tools, in the order they are listed.
pub fn tool_specs() -> (r: Vec<ToolSpec>)
    ensures
        r@.map_values(|t: ToolSpec| tool_pair(t)) == tool_table(),
{
    let r = vec![
        ToolSpec {
            tool_name: "data_gov_search",
            method_name: "data_gov.search",
            description: "Search datasets on data.gov with optional filters",
            input_schema: "{\"type\":\"object\",\"properties\":{\"query\":{\"type\":\"string\",\"description\":\"Full-text search query\"},\"limit\":{\"type\":\"integer\",\"minimum\":1,\"maximum\":1000,\"description\":\"Maximum number of results\"},\"offset\":{\"type\":\"integer\",\"minimum\":0,\"description\":\"Result offset for pagination\"},\"organization\":{\"type\":\"string\",\"description\":\"Filter results to a specific organization\"},\"format\":{\"type\":\"string\",\"description\":\"Filter results by resource format e.g. CSV\"}},\"required\":[\"query\"],\"additionalProperties\":false}",
        },
        ToolSpec {
            tool_name: "data_gov_dataset",
            method_name: "data_gov.dataset",
            description: "Fetch detailed metadata for a dataset by name or ID",
            input_schema: "{\"type\":\"object\",\"properties\":{\"id\":{\"type\":\"string\",\"description\":\"Dataset identifier or name\"}},\"required\":[\"id\"],\"additionalProperties\":false}",
        },
        ToolSpec {
            tool_name: "data_gov_autocomplete_datasets",
            method_name: "data_gov.autocompleteDatasets",
            description: "Autocomplete dataset names based on a partial query",
            input_schema: "{\"type\":\"object\",\"properties\":{\"partial\":{\"type\":\"string\",\"description\":\"Partial dataset name\"},\"limit\":{\"type\":\"integer\",\"minimum\":1,\"maximum\":100,\"description\":\"Maximum suggestions to return\"}},\"required\":[\"partial\"],\"additionalProperties\":false}",
        },
        ToolSpec {
            tool_name: "data_gov_list_organizations",
            method_name: "data_gov.listOrganizations",
            description: "List publishing organizations (agencies) on data.gov",
            input_schema: "{\"type\":\"object\",\"properties\":{\"limit\":{\"type\":\"integer\",\"minimum\":1,\"maximum\":1000,\"description\":\"Maximum number of organizations to return\"}},\"additionalProperties\":false}",
        },
        ToolSpec {
            tool_name: "data_gov_download_resources",
            method_name: "data_gov.downloadResources",
            description: "Download one or more dataset resources to the local filesystem",
            input_schema: "{\"type\":\"object\",\"properties\":{\"datasetId\":{\"type\":\"string\",\"description\":\"Dataset identifier or name\"},\"resourceIds\":{\"type\":\"array\",\"items\":{\"type\":\"string\"},\"description\":\"Optional list of resource IDs to download\"},\"formats\":{\"type\":\"array\",\"items\":{\"type\":\"string\"},\"description\":\"Optional list of resource formats to include (e.g. CSV, JSON)\"},\"outputDir\":{\"type\":\"string\",\"description\":\"Optional directory to save files. Relative paths resolve against the current working directory.\"},\"datasetSubdirectory\":{\"type\":\"boolean\",\"description\":\"If true, create a dataset-named subdirectory inside the output directory.\"}},\"required\":[\"datasetId\"],\"additionalProperties\":false}",
        },
        ToolSpec {
            tool_name: "ckan_package_search",
            method_name: "ckan.packageSearch",
            description: "Perform a low-level CKAN package_search request",
            input_schema: "{\"type\":\"object\",\"properties\":{\"query\":{\"type\":[\"string\",\"null\"],\"description\":\"Full-text search query\"},\"rows\":{\"type\":[\"integer\",\"null\"],\"minimum\":1,\"maximum\":1000,\"description\":\"Number of rows to return\"},\"start\":{\"type\":[\"integer\",\"null\"],\"minimum\":0,\"description\":\"Offset into result set\"},\"filter\":{\"type\":[\"string\",\"null\"],\"description\":\"Filter query in CKAN syntax\"}},\"additionalProperties\":false}",
        },
        ToolSpec {
            tool_name: "ckan_package_show",
            method_name: "ckan.packageShow",
            description: "Retrieve detailed metadata for a dataset using CKAN",
            input_schema: "{\"type\":\"object\",\"properties\":{\"id\":{\"type\":\"string\",\"description\":\"Dataset identifier or name\"}},\"required\":[\"id\"],\"additionalProperties\":false}",
        },
        ToolSpec {
            tool_name: "ckan_organization_list",
            method_name: "ckan.organizationList",
            description: "List CKAN organizations with optional sorting and pagination",
            input_schema: "{\"type\":\"object\",\"properties\":{\"sort\":{\"type\":[\"string\",\"null\"],\"description\":\"Sort expression e.g. name asc\"},\"limit\":{\"type\":[\"integer\",\"null\"],\"minimum\":1,\"maximum\":1000,\"description\":\"Maximum organizations to return\"},\"offset\":{\"type\":[\"integer\",\"null\"],\"minimum\":0,\"description\":\"Offset for pagination\"}},\"additionalProperties\":false}",
        },
    ];
    assert(r@.map_values(|t: ToolSpec| tool_pair(t)) =~= tool_table());
    r
}

/// The first tool with the given name.
pub fn find_tool_spec(name: &str) -> (r: Option<ToolSpec>)
    ensures
        r matches Some(t) ==> t.tool_name@ == name@ && tool_table().contains(tool_pair(t)),
        r is None ==> forall|i: int| 0 <= i < tool_table().len() ==> (#[trigger] tool_table()[i]).0 != name@,
{
    let specs = tool_specs();
    let ghost pairs = specs@.map_values(|t: ToolSpec| tool_pair(t));
    let mut i: usize = 0;
    while i < specs.len()
        invariant
            i <= specs@.len(),
            pairs == specs@.map_values(|t: ToolSpec| tool_pair(t)),
            pairs == tool_table(),
            forall|k: int| 0 <= k < i ==> (#[trigger] pairs[k]).0 != name@,
        decreases specs@.len() - i,
    {
        if same_text(specs[i].tool_name, name) {
            assert(pairs[i as int] == tool_pair(specs@[i as int]));
            return Some(specs[i]);
        }
        assert(pairs[i as int] == tool_pair(specs@[i as int]));
        i = i + 1;
    }
    None
}

/// The first tool that calls the given method.
pub fn find_tool_spec_by_method(method: &str) -> (r: Option<ToolSpec>)
    ensures
        r matches Some(t) ==> t.method_name@ == method@ && tool_table().contains(tool_pair(t)),
        r is None ==> forall|i: int| 0 <= i < tool_table().len() ==> (#[trigger] tool_table()[i]).1 != method@,
{
    let specs = tool_specs();
    let ghost pairs = specs@.map_values(|t: ToolSpec| tool_pair(t));
    let mut i: usize = 0;
    while i < specs.len()
        invariant
            i <= specs@.len(),
            pairs == specs@.map_values(|t: ToolSpec| tool_pair(t)),
            pairs == tool_table(),
            forall|k: int| 0 <= k < i ==> (#[trigger] pairs[k]).1 != method@,
        decreases specs@.len() - i,
    {
        if same_text(specs[i].method_name, method) {
            assert(pairs[i as int] == tool_pair(specs@[i as int]));
            return Some(specs[i]);
        }
        assert(pairs[i as int] == tool_pair(specs@[i as int]));
        i = i + 1;
    }
    None
}

/// The method that a request runs, and whether its result is wrapped as a
/// tool response.
#[derive(Debug, Clone)]
pub struct Invocation {
    pub method: String,
    pub as_tool: bool,
}

/// The method a `tools/call` request for a tool runs, wrapped as a tool
/// response; an unknown tool is an unknown method.
pub fn resolve_tool_call(tool_name: &str) -> (r: Result<Invocation, ServerError>)
    ensures
        r matches Ok(inv) ==> inv.as_tool && exists|i: int|
            0 <= i < tool_table().len() && (#[trigger] tool_table()[i]).0 == tool_name@ && tool_table()[i].1
                == inv.method@,
        r is Err <==> forall|i: int| 0 <= i < tool_table().len() ==> (#[trigger] tool_table()[i]).0 != tool_name@,
        r matches Err(e) ==> (e matches ServerError::InvalidMethod(m) && m@ == tool_name@),
{
    match find_tool_spec(tool_name) {
        Some(t) => Ok(Invocation { method: t.method_name.to_string(), as_tool: true }),
        None => Err(ServerError::InvalidMethod(tool_name.to_string())),
    }
}

/// How a request for a method runs: methods that a tool calls have their
/// result wrapped as a tool response; other methods answer as they are.
pub fn resolve_method(method: &str) -> (r: Invocation)
    ensures
        r.method@ == method@,
        r.as_tool == exists|i: int| 0 <= i < tool_table().len() && (#[trigger] tool_table()[i]).1 == method@,
{
    let as_tool = match find_tool_spec_by_method(method) {
        Some(_) => true,
        None => false,
    };
    Invocation { method: method.to_string(), as_tool }
}

/// Failures of a request to the server.
#[derive(Debug, Clone, PartialEq, Eq)]
pub enum ServerError {
    InvalidRequest(String),
    InvalidMethod(String),
    InvalidParams(String),
    /// A JSON decoding failure, with its description.
    Json(String),
    /// An I/O failure, with its description.
    Io(String),
    DataGov(DataGovError),
    Ckan(CkanError),
    /// A JSON encoding failure, with its description.
    Serialization(String),
}

/// The text that describes a server failure.
pub open spec fn server_error_text(e: ServerError) -> Seq<char> {
    match e {
        ServerError::InvalidRequest(m) => "invalid request: "@ + m@,
        ServerError::InvalidMethod(m) => "unknown method: "@ + m@,
        ServerError::InvalidParams(m) => "invalid parameters: "@ + m@,
        ServerError::Json(m) => m@,
        ServerError::Io(m) => m@,
        ServerError::DataGov(d) => data_gov_error_text(d),
        ServerError::Ckan(c) => ckan_error_text(c),
        ServerError::Serialization(m) => "serialization error: "@ + m@,
    }
}

impl ServerError {
    /// The text that describes this failure.
    pub fn to_message(&self) -> (r: String)
        ensures
            r@ == server_error_text(*self),
    {
        match self {
            ServerError::InvalidRequest(m) => join2("invalid request: ", m.as_str()),
            ServerError::InvalidMethod(m) => join2("unknown method: ", m.as_str()),
            ServerError::InvalidParams(m) => join2("invalid parameters: ", m.as_str()),
            ServerError::Json(m) => m.clone(),
            ServerError::Io(m) => m.clone(),
            ServerError::DataGov(d) => d.to_message(),
            ServerError::Ckan(c) => c.to_message(),
            ServerError::Serialization(m) => join2("serialization error: ", m.as_str()),
        }
    }
}

/// The error object of a response: a JSON-RPC style code and a message.
#[derive(Debug, Clone, PartialEq, Eq)]
pub struct ResponseError {
    pub code: i32,
    pub message: String,
}

/// The code of each kind of server failure.
pub open spec fn error_code(e: ServerError) -> int {
    match e {
        ServerError::InvalidRequest(_) => -32600,
        ServerError::InvalidMethod(_) => -32601,
        ServerError::InvalidParams(_) => -32602,
        ServerError::Json(_) => -32700,
        ServerError::Io(_) => -32020,
        ServerError::DataGov(_) => -32010,
        ServerError::Ckan(_) => -32011,
        ServerError::Serialization(_) => -32603,
    }
}

/// The message of each kind of server failure in a response.
pub open spec fn error_message(e: ServerError) -> Seq<char> {
    match e {
        ServerError::InvalidRequest(m) => m@,
        ServerError::InvalidMethod(m) => "Unknown method: "@ + m@,
        ServerError::InvalidParams(m) => m@,
        ServerError::Json(m) => m@,
        ServerError::Io(m) => m@,
        ServerError::DataGov(d) => data_gov_error_text(d),
        ServerError::Ckan(c) => ckan_error_text(c),
        ServerError::Serialization(m) => m@,
    }
}

impl ResponseError {
    /// The error object for a failure.
    pub fn from_error(err: ServerError) -> (r: ResponseError)
        ensures
            r.code == error_code(err),
            r.message@ == error_message(err),
    {
        match err {
            ServerError::InvalidRequest(message) => ResponseError { code: -32600, message },
            ServerError::InvalidMethod(method) => ResponseError {
                code: -32601,
                message: join2("Unknown method: ", method.as_str()),
            },
            ServerError::InvalidParams(message) => ResponseError { code: -32602, message },
            ServerError::Json(m) => ResponseError { code: -32700, message: m },
            ServerError::Io(m) => ResponseError { code: -32020, message: m },
            ServerError::DataGov(d) => ResponseError { code: -32010, message: d.to_message() },
            ServerError::Ckan(c) => ResponseError { code: -32011, message: c.to_message() },
            ServerError::Serialization(m) => ResponseError { code: -32603, message: m },
        }
    }
}

/// The failure of a request whose method needs parameters and got none.
pub fn missing_params(method: &str) -> (r: ServerError)
    ensures
        r matches ServerError::InvalidParams(m) && m@ == method@ + ": missing parameters"@,
{
    ServerError::InvalidParams(join2(method, ": missing parameters"))
}

/// The failure of a request whose parameters did not decode.
pub fn invalid_params(method: &str, detail: &str) -> (r: ServerError)
    ensures
        r matches ServerError::InvalidParams(m) && m@ == method@ + ": "@ + detail@,
{
    ServerError::InvalidParams(join3(method, ": ", detail))
}

/// The texts of a list of strings.
pub open spec fn texts(v: Seq<String>) -> Seq<Seq<char>> {
    v.map_values(|s: String| s@)
}

/// A key in its normal form: trimmed, with ASCII letters in lower case.
pub open spec fn normal_key(s: Seq<char>) -> Seq<char> {
    ascii_lower(trimmed_of(s))
}

/// A resource's id matches a normal key.
pub open spec fn id_matches(r: ResourceView, key: Seq<char>) -> bool {
    r.id matches Some(i) && ascii_lower(i) == key
}

/// A resource's format matches a normal key.
pub open spec fn format_matches(r: ResourceView, key: Seq<char>) -> bool {
    r.format matches Some(f) && ascii_lower(f) == key
}

/// Some resource of the list has an id or a format (`by_format`) that matches the key.
pub open spec fn any_matches(rs: Seq<ResourceView>, key: Seq<char>, by_format: bool) -> bool {
    exists|k: int| 0 <= k < rs.len() && if by_format { format_matches(rs[k], key) } else { id_matches(rs[k], key) }
}

/// The requested values (trimmed) that no resource of the list matches, in
/// the order requested.
pub open spec fn unmatched(rs: Seq<ResourceView>, wanted: Seq<Seq<char>>, by_format: bool) -> Seq<Seq<char>>
    decreases wanted.len(),
{
    if wanted.len() == 0 {
        seq![]
    } else {
        let init = unmatched(rs, wanted.drop_last(), by_format);
        if any_matches(rs, normal_key(wanted.last()), by_format) {
            init
        } else {
            init.push(trimmed_of(wanted.last()))
        }
    }
}

/// A resource matches one of the requested values.
pub open spec fn is_requested(r: ResourceView, wanted: Seq<Seq<char>>, by_format: bool) -> bool {
    exists|j: int| 0 <= j < wanted.len() && if by_format { format_matches(r, normal_key(wanted[j])) } else { id_matches(r, normal_key(wanted[j])) }
}

/// The resources that match one of the requested values, in their order.
pub open spec fn requested(rs: Seq<ResourceView>, wanted: Seq<Seq<char>>, by_format: bool) -> Seq<ResourceView>
    decreases rs.len(),
{
    if rs.len() == 0 {
        seq![]
    } else {
        let init = requested(rs.drop_last(), wanted, by_format);
        if is_requested(rs.last(), wanted, by_format) {
            init.push(rs.last())
        } else {
            init
        }
    }
}

/// The resources chosen for a download request, and the requested ids and
/// formats that matched nothing.
#[derive(Debug, Clone)]
pub struct Selection {
    pub resources: Vec<Resource>,
    pub missing_resource_ids: Vec<String>,
    pub unavailable_formats: Vec<String>,
}

/// The resources after the id filter, when ids are requested.
pub open spec fn after_ids(rs: Seq<ResourceView>, ids: Option<Seq<Seq<char>>>) -> Seq<ResourceView> {
    match ids {
        Some(w) => requested(rs, w, false),
        None => rs,
    }
}

/// The resources after the format filter, when formats are requested.
pub open spec fn after_formats(rs: Seq<ResourceView>, formats: Option<Seq<Seq<char>>>) -> Seq<ResourceView> {
    match formats {
        Some(w) => requested(rs, w, true),
        None => rs,
    }
}

/// The message of a download request that leaves no resource.
pub open spec fn no_match_message(missing: Seq<Seq<char>>, unavailable: Seq<Seq<char>>) -> Seq<char> {
    "data_gov.downloadResources: no matching downloadable resources"@ + (if missing.len() > 0 {
        "; missing resourceIds: "@ + joined_list(missing)
    } else {
        Seq::<char>::empty()
    }) + (if unavailable.len() > 0 {
        "; unavailable formats: "@ + joined_list(unavailable)
    } else {
        Seq::<char>::empty()
    })
}

/// Texts joined by `, `.
pub open spec fn joined_list(v: Seq<Seq<char>>) -> Seq<char>
    decreases v.len(),
{
    if v.len() == 0 {
        seq![]
    } else if v.len() == 1 {
        v[0]
    } else {
        joined_list(v.drop_last()) + ", "@ + v.last()
    }
}

/// The message of a download request with an empty list of ids.
pub const EMPTY_IDS_MESSAGE: &'static str = "data_gov.downloadResources: resourceIds cannot be empty";

/// The resources that a download request chooses from a dataset: its
/// downloadable resources, narrowed to the requested ids and then to the
/// requested formats (both compared trimmed and without regard to ASCII
/// case). An empty list of ids is refused, and so is a choice that leaves no
/// resource; the ids and formats that matched nothing are named.
pub fn select_download_resources(
    dataset: &Package,
    resource_ids: &Option<Vec<String>>,
    formats: &Option<Vec<String>>,
) -> (r: Result<Selection, ServerError>)
    ensures
        ({
            let ids = match resource_ids {
                Some(v) => Some(texts(v@)),
                None => None,
            };
            let fmts = match formats {
                Some(v) => Some(texts(v@)),
                None => None,
            };
            let all = downloadable(package_resources(*dataset));
            let by_id = after_ids(all, ids);
            let chosen = after_formats(by_id, fmts);
            let missing = match ids {
                Some(w) => unmatched(all, w, false),
                None => seq![],
            };
            let unavailable = match fmts {
                Some(w) => unmatched(by_id, w, true),
                None => seq![],
            };
            if ids matches Some(w) && w.len() == 0 {
                r matches Err(ServerError::InvalidParams(m)) && m@ == EMPTY_IDS_MESSAGE@
            } else if chosen.len() == 0 {
                r matches Err(ServerError::InvalidParams(m)) && m@ == no_match_message(missing, unavailable)
            } else {
                r matches Ok(s) && s.resources@.map_values(|x: Resource| x@) == chosen && texts(
                    s.missing_resource_ids@,
                ) == missing && texts(s.unavailable_formats@) == unavailable
            }
        }),
{
    if let Some(ids) = resource_ids {
        if ids.len() == 0 {
            return Err(ServerError::InvalidParams(EMPTY_IDS_MESSAGE.to_string()));
        }
    }
    let all = DataGovClient::get_downloadable_resources(dataset);
    let (by_id, missing) = match resource_ids {
        Some(ids) => {
            let keys = normal_keys(ids);
            let missing = unmatched_values(&all, ids, &keys, false);
            (keep_requested(&all, ids, &keys, false), missing)
        },
        None => (copy_resources(&all), Vec::new()),
    };
    let (chosen, unavailable) = match formats {
        Some(fs) => {
            let keys = normal_keys(fs);
            let unavailable = unmatched_values(&by_id, fs, &keys, true);
            (keep_requested(&by_id, fs, &keys, true), unavailable)
        },
        None => (by_id, Vec::new()),
    };
    if chosen.len() == 0 {
        let mut message = "data_gov.downloadResources: no matching downloadable resources".to_string();
        if missing.len() > 0 {
            message.append("; missing resourceIds: ");
            let list = join_list(&missing);
            message.append(list.as_str());
        }
        if unavailable.len() > 0 {
            message.append("; unavailable formats: ");
            let list = join_list(&unavailable);
            message.append(list.as_str());
        }
        return Err(ServerError::InvalidParams(message));
    }
    Ok(Selection { resources: chosen, missing_resource_ids: missing, unavailable_formats: unavailable })
}

fn copy_resources(rs: &Vec<Resource>) -> (r: Vec<Resource>)
    ensures
        r@.map_values(|x: Resource| x@) == rs@.map_values(|x: Resource| x@),
{
    let mut out: Vec<Resource> = Vec::new();
    let mut i: usize = 0;
    while i < rs.len()
        invariant
            i <= rs@.len(),
            out@.len() == i,
            forall|k: int| 0 <= k < i ==> (#[trigger] out@[k])@ == rs@[k]@,
        decreases rs@.len() - i,
    {
        out.push(rs[i].duplicate());
        i = i + 1;
    }
    assert(out@.map_values(|x: Resource| x@) =~= rs@.map_values(|x: Resource| x@));
    out
}

/// The normal forms of requested values, in order.
fn normal_keys(v: &Vec<String>) -> (r: Vec<String>)
    ensures
        r@.len() == v@.len(),
        forall|j: int| 0 <= j < v@.len() ==> (#[trigger] r@[j])@ == normal_key(v@[j]@),
{
    let mut out: Vec<String> = Vec::new();
    let mut i: usize = 0;
    while i < v.len()
        invariant
            i <= v@.len(),
            out@.len() == i,
            forall|j: int| 0 <= j < i ==> (#[trigger] out@[j])@ == normal_key(v@[j]@),
        decreases v@.len() - i,
    {
        let t = trim_text(v[i].as_str());
        out.push(ascii_lowercase(t.as_str()));
        i = i + 1;
    }
    out
}

/// Whether a resource's id (or format) matches the key.
fn matches_key(r: &Resource, key: &str, by_format: bool) -> (b: bool)
    ensures
        b == if by_format { format_matches(r@, key@) } else { id_matches(r@, key@) },
{
    let field = if by_format { &r.format } else { &r.id };
    match field {
        Some(f) => {
            let l = ascii_lowercase(f.as_str());
            same_text(l.as_str(), key)
        },
        None => false,
    }
}

/// Whether some resource matches the key.
fn any_resource_matches(rs: &Vec<Resource>, key: &str, by_format: bool) -> (b: bool)
    ensures
        b == any_matches(rs@.map_values(|x: Resource| x@), key@, by_format),
{
    let ghost views = rs@.map_values(|x: Resource| x@);
    let mut i: usize = 0;
    while i < rs.len()
        invariant
            i <= rs@.len(),
            views == rs@.map_values(|x: Resource| x@),
            forall|k: int| 0 <= k < i ==> !(if by_format { format_matches(#[trigger] views[k], key@) } else { id_matches(views[k], key@) }),
        decreases rs@.len() - i,
    {
        if matches_key(&rs[i], key, by_format) {
            assert(views[i as int] == rs@[i as int]@);
            return true;
        }
        i = i + 1;
    }
    false
}

/// The requested values (trimmed) that match no resource, in order.
fn unmatched_values(rs: &Vec<Resource>, wanted: &Vec<String>, keys: &Vec<String>, by_format: bool) -> (r: Vec<String>)
    requires
        keys@.len() == wanted@.len(),
        forall|j: int| 0 <= j < wanted@.len() ==> (#[trigger] keys@[j])@ == normal_key(wanted@[j]@),
    ensures
        texts(r@) == unmatched(rs@.map_values(|x: Resource| x@), texts(wanted@), by_format),
{
    let ghost views = rs@.map_values(|x: Resource| x@);
    let ghost w = texts(wanted@);
    let mut out: Vec<String> = Vec::new();
    let mut i: usize = 0;
    while i < wanted.len()
        invariant
            i <= wanted@.len(),
            keys@.len() == wanted@.len(),
            forall|j: int| 0 <= j < wanted@.len() ==> (#[trigger] keys@[j])@ == normal_key(wanted@[j]@),
            views == rs@.map_values(|x: Resource| x@),
            w == texts(wanted@),
            texts(out@) == unmatched(views, w.subrange(0, i as int), by_format),
        decreases wanted@.len() - i,
    {
        assert(w.subrange(0, i + 1).drop_last() =~= w.subrange(0, i as int));
        assert(w.subrange(0, i + 1).last() == wanted@[i as int]@);
        if !any_resource_matches(rs, keys[i].as_str(), by_format) {
            out.push(trim_text(wanted[i].as_str()));
        }
        assert(texts(out@) =~= unmatched(views, w.subrange(0, i + 1), by_format));
        i = i + 1;
    }
    assert(w.subrange(0, wanted@.len() as int) =~= w);
    out
}

/// Whether some key matches the resource.
fn is_wanted(r: &Resource, wanted: &Vec<String>, keys: &Vec<String>, by_format: bool) -> (b: bool)
    requires
        keys@.len() == wanted@.len(),
        forall|j: int| 0 <= j < wanted@.len() ==> (#[trigger] keys@[j])@ == normal_key(wanted@[j]@),
    ensures
        b == is_requested(r@, texts(wanted@), by_format),
{
    let ghost w = texts(wanted@);
    let mut i: usize = 0;
    while i < keys.len()
        invariant
            i <= keys@.len(),
            keys@.len() == wanted@.len(),
            forall|j: int| 0 <= j < wanted@.len() ==> (#[trigger] keys@[j])@ == normal_key(wanted@[j]@),
            w == texts(wanted@),
            forall|j: int| 0 <= j < i ==> !(if by_format { format_matches(r@, normal_key(#[trigger] w[j])) } else { id_matches(r@, normal_key(w[j])) }),
        decreases keys@.len() - i,
    {
        if matches_key(r, keys[i].as_str(), by_format) {
            assert(w[i as int] == wanted@[i as int]@);
            return true;
        }
        assert(w[i as int] == wanted@[i as int]@);
        i = i + 1;
    }
    false
}

/// The resources that some requested value matches, in order.
fn keep_requested(rs: &Vec<Resource>, wanted: &Vec<String>, keys: &Vec<String>, by_format: bool) -> (r: Vec<Resource>)
    requires
        keys@.len() == wanted@.len(),
        forall|j: int| 0 <= j < wanted@.len() ==> (#[trigger] keys@[j])@ == normal_key(wanted@[j]@),
    ensures
        r@.map_values(|x: Resource| x@) == requested(rs@.map_values(|x: Resource| x@), texts(wanted@), by_format),
{
    let ghost views = rs@.map_values(|x: Resource| x@);
    let mut out: Vec<Resource> = Vec::new();
    let mut i: usize = 0;
    while i < rs.len()
        invariant
            i <= rs@.len(),
            keys@.len() == wanted@.len(),
            forall|j: int| 0 <= j < wanted@.len() ==> (#[trigger] keys@[j])@ == normal_key(wanted@[j]@),
            views == rs@.map_values(|x: Resource| x@),
            out@.map_values(|x: Resource| x@) == requested(views.subrange(0, i as int), texts(wanted@), by_format),
        decreases rs@.len() - i,
    {
        assert(views.subrange(0, i + 1).drop_last() =~= views.subrange(0, i as int));
        assert(views.subrange(0, i + 1).last() == rs@[i as int]@);
        if is_wanted(&rs[i], wanted, keys, by_format) {
            out.push(rs[i].duplicate());
        }
        assert(out@.map_values(|x: Resource| x@) =~= requested(views.subrange(0, i + 1), texts(wanted@), by_format));
        i = i + 1;
    }
    assert(views.subrange(0, rs@.len() as int) =~= views);
    out
}

/// Texts joined by `, `.
fn join_list(v: &Vec<String>) -> (r: String)
    ensures
        r@ == joined_list(texts(v@)),
{
    let ghost t = texts(v@);
    let mut out = String::new();
    let mut i: usize = 0;
    while i < v.len()
        invariant
            i <= v@.len(),
            t == texts(v@),
            out@ == joined_list(t.subrange(0, i as int)),
        decreases v@.len() - i,
    {
        assert(t.subrange(0, i + 1).drop_last() =~= t.subrange(0, i as int));
        if i > 0 {
            out.append(", ");
        }
        out.append(v[i].as_str());
        assert(out@ =~= joined_list(t.subrange(0, i + 1)));
        i = i + 1;
    }
    assert(t.subrange(0, v@.len() as int) =~= t);
    out
}

/// How many outcomes succeeded.
pub open spec fn successes(v: Seq<DownloadOutcome>) -> nat
    decreases v.len(),
{
    if v.len() == 0 {
        0
    } else {
        successes(v.drop_last()) + if v.last() is Ok { 1nat } else { 0nat }
    }
}

/// How many outcomes succeeded and how many failed.
pub fn count_outcomes(v: &Vec<DownloadOutcome>) -> (r: (usize, usize))
    ensures
        r.0 == successes(v@),
        r.0 + r.1 == v@.len(),
{
    let mut ok: usize = 0;
    let mut failed: usize = 0;
    let mut i: usize = 0;
    while i < v.len()
        invariant
            i <= v@.len(),
            ok == successes(v@.subrange(0, i as int)),
            ok + failed == i,
        decreases v@.len() - i,
    {
        assert(v@.subrange(0, i + 1).drop_last() =~= v@.subrange(0, i as int));
        if v[i].is_ok() {
            ok = ok + 1;
        } else {
            failed = failed + 1;
        }
        i = i + 1;
    }
    assert(v@.subrange(0, v@.len() as int) =~= v@);
    (ok, failed)
}

} // verus!
