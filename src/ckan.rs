//! The catalog's action API: request URLs of the form
//! `{base}/action/{name}?k=v&...`, and the reading of its `{success, result}`
//! envelope into a payload or a typed failure.
use crate::error::CkanError;
use crate::text::{decimal, decimal_string, join2, join3};
use vstd::prelude::*;
use vstd::utf8::encode_utf8;

verus! {

broadcast use vstd::string::group_string_axioms;

/// Bytes that percent-encoding leaves as they are: ASCII letters and digits,
/// `-`, `.`, `_` and `~`.
pub open spec fn is_unreserved(b: u8) -> bool {
    (48 <= b <= 57) || (65 <= b <= 90) || (97 <= b <= 122) || b == 45 || b == 46 || b == 95 || b
        == 126
}

/// An upper-case hexadecimal digit.
pub open spec fn hex_digit(d: u8) -> char {
    if d < 10 {
        crate::text::digit_char(d as nat)
    } else if d == 10 {
        'A'
    } else if d == 11 {
        'B'
    } else if d == 12 {
        'C'
    } else if d == 13 {
        'D'
    } else if d == 14 {
        'E'
    } else {
        'F'
    }
}

/// One byte, percent-encoded.
pub open spec fn encode_byte(b: u8) -> Seq<char> {
    if is_unreserved(b) {
        seq![b as char]
    } else {
        seq!['%', hex_digit(b / 16), hex_digit(b % 16)]
    }
}

/// Bytes, percent-encoded one by one.
pub open spec fn percent_encoded(bs: Seq<u8>) -> Seq<char>
    decreases bs.len(),
{
    if bs.len() == 0 {
        seq![]
    } else {
        percent_encoded(bs.drop_last()) + encode_byte(bs.last())
    }
}

/// Relies on `urlencoding::encode`: every byte of the UTF-8 text is kept if it
/// is an ASCII letter or digit or one of `-`, `.`, `_`, `~`, and written as `%`
/// and two upper-case hexadecimal digits otherwise.
#[verifier::external_body]
fn url_encode(s: &str) -> (r: String)
    ensures
        r@ == percent_encoded(encode_utf8(s@)),
{
    urlencoding::encode(s).into_owned()
}

/// The decimal writing of an integer, with a minus sign when negative.
pub open spec fn signed_decimal(n: int) -> Seq<char> {
    if n < 0 {
        seq!['-'] + decimal((-n) as nat)
    } else {
        decimal(n as nat)
    }
}

/// The decimal writing of an integer.
pub fn int_text(n: i32) -> (r: String)
    ensures
        r@ == signed_decimal(n as int),
{
    if n < 0 {
        let magnitude: u64 = (0i64 - n as i64) as u64;
        let digits = decimal_string(magnitude);
        let mut r = crate::text::char_string('-');
        r.append(digits.as_str());
        r
    } else {
        decimal_string(n as u64)
    }
}

/// One query parameter of an action request.
#[derive(Debug, Clone)]
pub struct QueryParam {
    pub key: String,
    pub value: String,
}

/// `key=value`, the value percent-encoded.
pub open spec fn encoded_pair(p: QueryParam) -> Seq<char> {
    p.key@ + "="@ + percent_encoded(encode_utf8(p.value@))
}

/// The encoded parameters, joined by `&`.
pub open spec fn joined_pairs(ps: Seq<QueryParam>) -> Seq<char>
    decreases ps.len(),
{
    if ps.len() == 0 {
        seq![]
    } else if ps.len() == 1 {
        encoded_pair(ps[0])
    } else {
        joined_pairs(ps.drop_last()) + "&"@ + encoded_pair(ps.last())
    }
}

/// The URL of an action: `{base}/action/{action}`, followed by `?` and the
/// encoded parameters when there are any.
pub open spec fn action_url_of(base: Seq<char>, action: Seq<char>, ps: Seq<QueryParam>) -> Seq<char> {
    base + "/action/"@ + action + if ps.len() == 0 {
        Seq::<char>::empty()
    } else {
        "?"@ + joined_pairs(ps)
    }
}

/// The URL of an action with its parameters.
pub fn action_url(base: &str, action: &str, params: &Vec<QueryParam>) -> (r: String)
    ensures
        r@ == action_url_of(base@, action@, params@),
{
    let mut url = join3(base, "/action/", action);
    if params.len() == 0 {
        assert(url@ =~= action_url_of(base@, action@, params@));
        return url;
    }
    let mut query = String::new();
    let mut i: usize = 0;
    while i < params.len()
        invariant
            i <= params@.len(),
            query@ == joined_pairs(params@.subrange(0, i as int)),
        decreases params@.len() - i,
    {
        let p = &params[i];
        let value = url_encode(p.value.as_str());
        let pair = join3(p.key.as_str(), "=", value.as_str());
        assert(params@.subrange(0, i + 1).drop_last() =~= params@.subrange(0, i as int));
        if i > 0 {
            query.append("&");
        }
        query.append(pair.as_str());
        assert(query@ =~= joined_pairs(params@.subrange(0, i + 1)));
        i = i + 1;
    }
    assert(params@.subrange(0, params@.len() as int) =~= params@);
    url.append("?");
    url.append(query.as_str());
    assert(url@ =~= action_url_of(base@, action@, params@));
    url
}

/// The parameters of present values, in order.
pub open spec fn present_params(ps: Seq<(Seq<char>, Option<Seq<char>>)>) -> Seq<(Seq<char>, Seq<char>)>
    decreases ps.len(),
{
    if ps.len() == 0 {
        seq![]
    } else {
        let init = present_params(ps.drop_last());
        match ps.last().1 {
            Some(v) => init.push((ps.last().0, v)),
            None => init,
        }
    }
}

proof fn lemma_present_step(s: Seq<(Seq<char>, Option<Seq<char>>)>, k: int)
    requires
        0 <= k < s.len(),
    ensures
        present_params(s.take(k + 1)) == match s[k].1 {
            Some(v) => present_params(s.take(k)).push((s[k].0, v)),
            None => present_params(s.take(k)),
        },
{
    assert(s.take(k + 1).drop_last() =~= s.take(k));
}

/// The view of a parameter list as key and value texts.
pub open spec fn params_view(ps: Seq<QueryParam>) -> Seq<(Seq<char>, Seq<char>)> {
    ps.map_values(|p: QueryParam| (p.key@, p.value@))
}

fn push_opt(ps: &mut Vec<QueryParam>, key: &str, value: Option<String>)
    ensures
        params_view(final(ps)@) == match opt_seq(value) {
            Some(v) => params_view(old(ps)@).push((key@, v)),
            None => params_view(old(ps)@),
        },
{
    match value {
        Some(v) => {
            ps.push(QueryParam { key: key.to_string(), value: v });
            assert(params_view(ps@) =~= params_view(old(ps)@).push((key@, ps@.last().value@)));
        },
        None => {},
    }
}

fn opt_text(v: Option<&str>) -> (r: Option<String>)
    ensures
        opt_seq(r) == text_of(v),
{
    match v {
        Some(t) => Some(t.to_string()),
        None => None,
    }
}

fn opt_int(v: Option<i32>) -> (r: Option<String>)
    ensures
        opt_seq(r) == number_of(v),
{
    match v {
        Some(n) => Some(int_text(n)),
        None => None,
    }
}

/// The text of an optional `&str`.
pub open spec fn text_of(v: Option<&str>) -> Option<Seq<char>> {
    match v {
        Some(t) => Some(t@),
        None => None,
    }
}

/// The decimal text of an optional number.
pub open spec fn number_of(v: Option<i32>) -> Option<Seq<char>> {
    match v {
        Some(n) => Some(signed_decimal(n as int)),
        None => None,
    }
}

/// The URL of the `package_search` action: query `q`, `rows`, `start` and
/// filter `fq`, each where given, in that order.
pub fn package_search_url(base: &str, q: Option<&str>, rows: Option<i32>, start: Option<i32>, fq: Option<&str>) -> (r: String)
    ensures
        exists|ps: Seq<QueryParam>|
            r@ == action_url_of(base@, "package_search"@, ps) && params_view(ps) == present_params(
                seq![("q"@, text_of(q)), ("rows"@, number_of(rows)), ("start"@, number_of(start)), ("fq"@, text_of(fq))],
            ),
{
    let mut ps: Vec<QueryParam> = Vec::new();
        let ghost spec_ps = seq![("q"@, text_of(q)), ("rows"@, number_of(rows)), ("start"@, number_of(start)), ("fq"@, text_of(fq))];
        assert(params_view(ps@) =~= present_params(spec_ps.take(0)));
    push_opt(&mut ps, "q", opt_text(q));
        proof { lemma_present_step(spec_ps, 0); }
    push_opt(&mut ps, "rows", opt_int(rows));
        proof { lemma_present_step(spec_ps, 1); }
    push_opt(&mut ps, "start", opt_int(start));
        proof { lemma_present_step(spec_ps, 2); }
    push_opt(&mut ps, "fq", opt_text(fq));
        proof { lemma_present_step(spec_ps, 3); }
    let r = action_url(base, "package_search", &ps);
    assert(spec_ps.take(4) =~= spec_ps);
    r
}

/// The URL of the `package_show` action for a dataset id or name.
pub fn package_show_url(base: &str, id: &str) -> (r: String)
    ensures
        exists|ps: Seq<QueryParam>|
            r@ == action_url_of(base@, "package_show"@, ps) && params_view(ps) == seq![("id"@, id@)],
{
    let mut ps: Vec<QueryParam> = Vec::new();
    ps.push(QueryParam { key: "id".to_string(), value: id.to_string() });
    assert(params_view(ps@) =~= seq![("id"@, id@)]);
    action_url(base, "package_show", &ps)
}

/// The URL of a listing action (`organization_list`, `group_list`): `sort`,
/// `limit` and `offset`, each where given, in that order.
pub fn list_url(base: &str, action: &str, sort: Option<&str>, limit: Option<i32>, offset: Option<i32>) -> (r: String)
    ensures
        exists|ps: Seq<QueryParam>|
            r@ == action_url_of(base@, action@, ps) && params_view(ps) == present_params(
                seq![("sort"@, text_of(sort)), ("limit"@, number_of(limit)), ("offset"@, number_of(offset))],
            ),
{
    let mut ps: Vec<QueryParam> = Vec::new();
        let ghost spec_ps = seq![("sort"@, text_of(sort)), ("limit"@, number_of(limit)), ("offset"@, number_of(offset))];
        assert(params_view(ps@) =~= present_params(spec_ps.take(0)));
    push_opt(&mut ps, "sort", opt_text(sort));
        proof { lemma_present_step(spec_ps, 0); }
    push_opt(&mut ps, "limit", opt_int(limit));
        proof { lemma_present_step(spec_ps, 1); }
    push_opt(&mut ps, "offset", opt_int(offset));
        proof { lemma_present_step(spec_ps, 2); }
    let r = action_url(base, action, &ps);
    assert(spec_ps.take(3) =~= spec_ps);
    r
}

/// The URL of an autocomplete action: query `q` and `limit`, then the
/// extra parameter where given, in that order.
pub fn autocomplete_url(base: &str, action: &str, q: Option<&str>, limit: Option<i32>, extra_key: &str, extra: Option<String>) -> (r: String)
    ensures
        exists|ps: Seq<QueryParam>|
            r@ == action_url_of(base@, action@, ps) && params_view(ps) == present_params(
                seq![("q"@, text_of(q)), ("limit"@, number_of(limit)), (extra_key@, opt_seq(extra))],
            ),
{
    let mut ps: Vec<QueryParam> = Vec::new();
        let ghost spec_ps = seq![("q"@, text_of(q)), ("limit"@, number_of(limit)), (extra_key@, opt_seq(extra))];
        assert(params_view(ps@) =~= present_params(spec_ps.take(0)));
    push_opt(&mut ps, "q", opt_text(q));
        proof { lemma_present_step(spec_ps, 0); }
    push_opt(&mut ps, "limit", opt_int(limit));
        proof { lemma_present_step(spec_ps, 1); }
    push_opt(&mut ps, extra_key, extra);
        proof { lemma_present_step(spec_ps, 2); }
    let r = action_url(base, action, &ps);
    assert(spec_ps.take(3) =~= spec_ps);
    r
}

/// The text of an optional string.
pub open spec fn opt_seq(v: Option<String>) -> Option<Seq<char>> {
    match v {
        Some(s) => Some(s@),
        None => None,
    }
}

/// The text of a flag.
pub fn flag_text(b: bool) -> (r: String)
    ensures
        r@ == if b { "true"@ } else { "false"@ },
{
    if b { "true".to_string() } else { "false".to_string() }
}

/// The filter query of a search narrowed to an organization and/or a
/// resource format.
pub open spec fn search_filter_of(organization: Option<Seq<char>>, format: Option<Seq<char>>) -> Option<Seq<char>> {
    match (organization, format) {
        (Some(o), Some(f)) => Some("organization:\""@ + o + "\" AND res_format:\""@ + f + "\""@),
        (Some(o), None) => Some("organization:\""@ + o + "\""@),
        (None, Some(f)) => Some("res_format:\""@ + f + "\""@),
        (None, None) => None,
    }
}

/// The filter query of a search narrowed to an organization and/or a
/// resource format; none when neither is given.
pub fn search_filter(organization: Option<&str>, format: Option<&str>) -> (r: Option<String>)
    ensures
        opt_seq(r) == search_filter_of(text_of(organization), text_of(format)),
{
    match (organization, format) {
        (Some(o), Some(f)) => {
            let a = join3("organization:\"", o, "\" AND res_format:\"");
            Some(join3(a.as_str(), f, "\""))
        },
        (Some(o), None) => Some(join3("organization:\"", o, "\"")),
        (None, Some(f)) => Some(join3("res_format:\"", f, "\"")),
        (None, None) => None,
    }
}

/// What came back from an action, as the caller read it.
#[derive(Debug, Clone)]
pub enum ActionReply<P> {
    /// The request got no response.
    TransportFailed(String),
    /// A success status, but the body could not be read.
    UnreadableBody(String),
    /// A success status, but the body did not decode as an envelope.
    UndecodableBody(String),
    /// A success status with an envelope: its `success` flag and its `result`, if any.
    Envelope { success: bool, result: Option<P> },
    /// A status other than success, with the body's text if it could be read.
    ErrorStatus { status: u16, body: Option<String> },
}

/// Whether a status code is one of success (2xx), whose body is an envelope.
pub fn is_success_status(status: u16) -> (r: bool)
    ensures
        r == (200 <= status <= 299),
{
    200 <= status && status <= 299
}

/// The message of an envelope whose `success` flag is false.
pub const REPORTED_FAILURE: &'static str = "CKAN API reported failure";

/// The message of an envelope without `result`.
pub const NO_RESULT: &'static str = "No result data in API response";

/// The message of an error status whose body could not be read.
pub const UNKNOWN_ERROR: &'static str = "Unknown error";

/// The payload of an action reply, or its failure: a transport failure or an
/// unreadable body is a request error; a body that is not an envelope is a
/// parse error; an envelope that reports failure is an
/// API error with status 400; one without result, an API error with status
/// 500; a status other than success, an API error with that status and the
/// body's text.
pub open spec fn reply_outcome_ok<P>(reply: ActionReply<P>, r: Result<P, CkanError>) -> bool {
    match reply {
        ActionReply::TransportFailed(m) => r matches Err(CkanError::RequestError(e)) && e@ == m@,
        ActionReply::UnreadableBody(m) => r matches Err(CkanError::RequestError(e)) && e@ == m@,
        ActionReply::UndecodableBody(m) => r matches Err(CkanError::ParseError(e)) && e@ == m@,
        ActionReply::Envelope { success, result } => if !success {
            r matches Err(CkanError::ApiError { status, message }) && status == 400 && message@
                == REPORTED_FAILURE@
        } else {
            match result {
                Some(p) => r == Ok::<P, CkanError>(p),
                None => r matches Err(CkanError::ApiError { status, message }) && status == 500
                    && message@ == NO_RESULT@,
            }
        },
        ActionReply::ErrorStatus { status, body } => r matches Err(
            CkanError::ApiError { status: s, message },
        ) && s == status && message@ == match body {
            Some(b) => b@,
            None => UNKNOWN_ERROR@,
        },
    }
}

/// Unwraps an action reply into its payload, or the failure it stands for.
pub fn unwrap_reply<P>(reply: ActionReply<P>) -> (r: Result<P, CkanError>)
    ensures
        reply_outcome_ok(reply, r),
{
    match reply {
        ActionReply::TransportFailed(m) => Err(CkanError::RequestError(m)),
        ActionReply::UnreadableBody(m) => Err(CkanError::RequestError(m)),
        ActionReply::UndecodableBody(m) => Err(CkanError::ParseError(m)),
        ActionReply::Envelope { success, result } => {
            if !success {
                Err(CkanError::ApiError { status: 400, message: REPORTED_FAILURE.to_string() })
            } else {
                match result {
                    Some(p) => Ok(p),
                    None => Err(CkanError::ApiError { status: 500, message: NO_RESULT.to_string() }),
                }
            }
        },
        ActionReply::ErrorStatus { status, body } => {
            let message = match body {
                Some(b) => b,
                None => UNKNOWN_ERROR.to_string(),
            };
            Err(CkanError::ApiError { status, message })
        },
    }
}

/// A decoded payload, or the decoder's failure as a parse error.
pub fn decoded<T>(d: Result<T, String>) -> (r: Result<T, CkanError>)
    ensures
        d matches Ok(v) ==> r == Ok::<T, CkanError>(v),
        d matches Err(m) ==> r matches Err(CkanError::ParseError(e)) && e@ == m@,
{
    match d {
        Ok(v) => Ok(v),
        Err(m) => Err(CkanError::ParseError(m)),
    }
}

} // verus!
