use vstd::prelude::*;

use crate::error::ErrorResponse;
use crate::error::bad_request;
use crate::error::BAD_REQUEST;
use crate::error::METHOD_NOT_ALLOWED;
use crate::error::UNSUPPORTED_MEDIA_TYPE;
use crate::error::msg_bad_request;
use crate::error::msg_bad_media;
use crate::error::msg_incorrect_json;
use crate::error::msg_method_not_allowed;
use crate::json::json_accepted;
use crate::json::json_str_field;
use vstd::string::StringSliceAdditionalSpecFns;
use vstd::string::StringExecFns;
use vstd::utf8::valid_utf8;
use vstd::utf8::decode_utf8;
use vstd::utf8::encode_utf8;

verus! {

/// The two URLs a request names: where the template text lives and where the
/// JSON data document lives.
pub struct Params {
    pub template_url: String,
    pub data_url: String,
}

/// A request's content-type header as the adapter hands it over: absent,
/// readable text, or present but not readable as visible ASCII.
pub enum HeaderValueInfo {
    Missing,
    Text(String),
    Opaque,
}

/// The plain shape of an incoming request: everything parameter resolution
/// reads, as owned values.
pub struct RequestInfo {
    pub method: String,
    pub query: String,
    pub content_type: HeaderValueInfo,
    pub content_type_fallback: HeaderValueInfo,
    pub body: Vec<u8>,
}

/// What parameter resolution decides: either the two URLs, or the status and
/// message to reject the request with.
pub enum ParamOutcome {
    Resolved { t: Seq<char>, d: Seq<char> },
    Rejected { status: u16, message: Seq<char> },
}

/// Whether an executable resolution result carries exactly the outcome `o`.
pub open spec fn agrees(r: Result<Params, ErrorResponse>, o: ParamOutcome) -> bool {
    match o {
        ParamOutcome::Resolved { t, d } => r matches Ok(p) && p.template_url@ == t
            && p.data_url@ == d,
        ParamOutcome::Rejected { status, message } => r matches Err(e) && e.status == status
            && e.message@ == message,
    }
}

/// The name/value pairs of a query string or form body, percent-decoded, as
/// `url::form_urlencoded::parse` yields them; a fixed function of the bytes.
pub uninterp spec fn form_decode(input: Seq<u8>) -> Seq<(Seq<char>, Seq<char>)>;

pub open spec fn pair_views(pairs: Seq<(String, String)>) -> Seq<(Seq<char>, Seq<char>)> {
    Seq::new(pairs.len(), |i: int| (pairs[i].0@, pairs[i].1@))
}

/// The value of the first pair named `name`, with an empty value treated as
/// absent, exactly as `get_param` looks a parameter up.
pub open spec fn lookup_param(pairs: Seq<(Seq<char>, Seq<char>)>, name: Seq<char>) -> Option<
    Seq<char>,
>
    decreases pairs.len(),
{
    if pairs.len() == 0 {
        None
    } else if pairs[0].0 == name {
        if pairs[0].1.len() == 0 {
            None
        } else {
            Some(pairs[0].1)
        }
    } else {
        lookup_param(pairs.drop_first(), name)
    }
}

/// Resolution over decoded pairs: both `t` and `d` must be present and
/// non-empty, else the request is rejected with "Bad request".
pub open spec fn resolve_pairs_spec(pairs: Seq<(Seq<char>, Seq<char>)>) -> ParamOutcome {
    match (lookup_param(pairs, "t"@), lookup_param(pairs, "d"@)) {
        (Some(t), Some(d)) => ParamOutcome::Resolved { t, d },
        _ => ParamOutcome::Rejected { status: BAD_REQUEST, message: msg_bad_request() },
    }
}

/// Resolution over the string fields of a JSON body: a missing or non-string
/// field is a shape error ("Incorrect JSON"); a present but empty field is
/// treated as absent ("Bad request").
pub open spec fn resolve_json_fields_spec(t: Option<Seq<char>>, d: Option<Seq<char>>) -> ParamOutcome {
    match (t, d) {
        (Some(tv), Some(dv)) => if tv.len() == 0 || dv.len() == 0 {
            ParamOutcome::Rejected { status: BAD_REQUEST, message: msg_bad_request() }
        } else {
            ParamOutcome::Resolved { t: tv, d: dv }
        },
        _ => ParamOutcome::Rejected { status: BAD_REQUEST, message: msg_incorrect_json() },
    }
}

/// Relies on `url::form_urlencoded::parse`: splits the input on `&` and `=`,
/// percent-decodes names and values with `+` as space; the resulting pairs are
/// a fixed function of the input bytes alone.
#[verifier::external_body]
fn parse_form_pairs(input: &[u8]) -> (r: Vec<(String, String)>)
    ensures
        pair_views(r@) == form_decode(input@),
{
    url::form_urlencoded::parse(input).into_owned().collect()
}

/// Relies on `std::str::from_utf8`: succeeds exactly on valid UTF-8, yielding
/// the string that decodes those bytes.
#[verifier::external_body]
pub(crate) fn utf8_decode(bytes: &[u8]) -> (r: Option<&str>)
    ensures
        r is Some <==> valid_utf8(bytes@),
        r matches Some(s) ==> s@ == decode_utf8(bytes@),
{
    std::str::from_utf8(bytes).ok()
}

proof fn lemma_lookup_skip(pairs: Seq<(Seq<char>, Seq<char>)>, name: Seq<char>, i: int)
    requires
        0 <= i <= pairs.len(),
        forall|j: int| 0 <= j < i ==> pairs[j].0 != name,
    ensures
        lookup_param(pairs, name) == lookup_param(pairs.skip(i), name),
    decreases i,
{
    if i == 0 {
        assert(pairs.skip(0) =~= pairs);
    } else {
        assert(pairs[0].0 != name);
        lemma_lookup_skip(pairs.drop_first(), name, i - 1);
        assert(pairs.drop_first().skip(i - 1) =~= pairs.skip(i));
    }
}

/// Look a parameter up as the original query logic does: the first pair with
/// the given name decides, and an empty value counts as absent.
pub fn get_param(pairs: &Vec<(String, String)>, name: &String) -> (r: Option<String>)
    ensures
        match r {
            Some(s) => lookup_param(pair_views(pairs@), name@) == Some(s@),
            None => lookup_param(pair_views(pairs@), name@) is None,
        },
{
    let ghost views = pair_views(pairs@);
    let mut i: usize = 0;
    while i < pairs.len()
        invariant
            0 <= i <= pairs.len(),
            views == pair_views(pairs@),
            forall|j: int| 0 <= j < i ==> views[j].0 != name@,
        decreases pairs.len() - i,
    {
        if pairs[i].0 == *name {
            proof {
                lemma_lookup_skip(views, name@, i as int);
                assert(views.skip(i as int)[0] == views[i as int]);
            }
            if pairs[i].1.as_str().is_empty() {
                return None;
            } else {
                return Some(pairs[i].1.clone());
            }
        }
        i += 1;
    }
    proof {
        lemma_lookup_skip(views, name@, pairs@.len() as int);
        assert(views.skip(views.len() as int) =~= Seq::<(Seq<char>, Seq<char>)>::empty());
    }
    None
}

impl Params {
    /// Resolve `t` and `d` from a query string or an urlencoded form body.
    pub fn from_urlencoded(query: &str) -> (r: Result<Params, ErrorResponse>)
        ensures
            agrees(r, resolve_pairs_spec(form_decode(query.spec_bytes()))),
    {
        let pairs = parse_form_pairs(query.as_bytes());
        let t = get_param(&pairs, &String::from_str("t"));
        let d = get_param(&pairs, &String::from_str("d"));
        match (t, d) {
            (Some(t), Some(d)) => Ok(Params { template_url: t, data_url: d }),
            _ => Err(bad_request()),
        }
    }

    /// Build `Params` from the two string fields of a decoded JSON body.
    pub fn from_fields(t: Option<String>, d: Option<String>) -> (r: Result<Params, ErrorResponse>)
        ensures
            agrees(r, resolve_json_fields_spec(opt_view(t), opt_view(d))),
    {
        match (t, d) {
            (Some(t), Some(d)) => {
                if t.as_str().is_empty() || d.as_str().is_empty() {
                    Err(bad_request())
                } else {
                    Ok(Params { template_url: t, data_url: d })
                }
            },
            _ => Err(crate::error::incorrect_json()),
        }
    }
}

pub open spec fn opt_view(o: Option<String>) -> Option<Seq<char>> {
    match o {
        Some(s) => Some(s@),
        None => None,
    }
}

/// What a JSON-body resolution returns for a given body: the two decode
/// failures are pinned, and a parsed document resolves by the string values
/// of its top-level `t` and `d` fields — a fixed function of the body.
pub open spec fn json_body_post(body: Seq<u8>, r: Result<Params, ErrorResponse>) -> bool {
    &&& (!valid_utf8(body) ==> agrees(
        r,
        ParamOutcome::Rejected { status: UNSUPPORTED_MEDIA_TYPE, message: msg_bad_media() },
    ))
    &&& ((valid_utf8(body) && !json_accepted(decode_utf8(body))) ==> agrees(
        r,
        ParamOutcome::Rejected { status: BAD_REQUEST, message: msg_incorrect_json() },
    ))
    &&& ((valid_utf8(body) && json_accepted(decode_utf8(body))) ==> agrees(
        r,
        resolve_json_fields_spec(
            json_str_field(decode_utf8(body), "t"@),
            json_str_field(decode_utf8(body), "d"@),
        ),
    ))
}

/// What a form-body resolution returns: a body that is not UTF-8 is rejected
/// as bad media; otherwise the body resolves exactly as a query string does.
pub open spec fn form_body_post(body: Seq<u8>, r: Result<Params, ErrorResponse>) -> bool {
    &&& (!valid_utf8(body) ==> agrees(
        r,
        ParamOutcome::Rejected { status: UNSUPPORTED_MEDIA_TYPE, message: msg_bad_media() },
    ))
    &&& (valid_utf8(body) ==> agrees(r, resolve_pairs_spec(form_decode(body))))
}

impl Params {
    /// Resolve `t` and `d` from a JSON request body: the body must be UTF-8,
    /// parse as JSON, and carry non-empty string fields `t` and `d`.
    pub fn from_json_body(body: &[u8]) -> (r: Result<Params, ErrorResponse>)
        ensures
            json_body_post(body@, r),
    {
        let s = match utf8_decode(body) {
            None => {
                return Err(crate::error::bad_media());
            },
            Some(s) => s,
        };
        match crate::json::parse_json(s) {
            Err(_) => {
                return Err(crate::error::incorrect_json());
            },
            Ok(_) => {},
        };
        let t = crate::json::json_string_field(s, "t");
        let d = crate::json::json_string_field(s, "d");
        Params::from_fields(t, d)
    }

    /// Resolve `t` and `d` from an urlencoded form body: the body must be
    /// UTF-8 and is then read exactly as a query string.
    pub fn from_form_body(body: &[u8]) -> (r: Result<Params, ErrorResponse>)
        ensures
            form_body_post(body@, r),
    {
        match utf8_decode(body) {
            None => Err(crate::error::bad_media()),
            Some(s) => {
                let r = Params::from_urlencoded(s);
                proof {
                    broadcast use vstd::utf8::decode_utf8_encode_utf8;

                    assert(encode_utf8(decode_utf8(body@)) == body@);
                }
                r
            },
        }
    }
}

/// The content type the request carries: the primary header wins, the
/// fallback header is consulted only when the primary is absent, and a header
/// that is present but unreadable yields nothing.
pub open spec fn content_type_view(primary: HeaderValueInfo, fallback: HeaderValueInfo) -> Option<
    Seq<char>,
> {
    match primary {
        HeaderValueInfo::Text(s) => Some(s@),
        HeaderValueInfo::Opaque => None,
        HeaderValueInfo::Missing => match fallback {
            HeaderValueInfo::Text(s) => Some(s@),
            HeaderValueInfo::Opaque => None,
            HeaderValueInfo::Missing => Some(Seq::<char>::empty()),
        },
    }
}

/// Read the request's content type, falling back to the secondary header and
/// treating two missing headers as the empty content type; an unreadable
/// header is a bad request.
pub fn get_content_type(primary: &HeaderValueInfo, fallback: &HeaderValueInfo) -> (r: Result<
    String,
    ErrorResponse,
>)
    ensures
        match content_type_view(*primary, *fallback) {
            Some(ct) => r matches Ok(s) && s@ == ct,
            None => r matches Err(e) && e.status == BAD_REQUEST && e.message@ == msg_bad_request(),
        },
{
    match primary {
        HeaderValueInfo::Text(s) => Ok(s.clone()),
        HeaderValueInfo::Opaque => Err(bad_request()),
        HeaderValueInfo::Missing => match fallback {
            HeaderValueInfo::Text(s) => Ok(s.clone()),
            HeaderValueInfo::Opaque => Err(bad_request()),
            HeaderValueInfo::Missing => Ok(String::new()),
        },
    }
}

fn str_is(s: &String, lit: &str) -> (r: bool)
    ensures
        r == (s@ == lit@),
{
    let l = String::from_str(lit);
    *s == l
}

/// Everything parameter resolution promises, per method and content type.
pub open spec fn resolve_post(req: RequestInfo, r: Result<Params, ErrorResponse>) -> bool {
    &&& ((req.method@ != "GET"@ && req.method@ != "POST"@) ==> agrees(
        r,
        ParamOutcome::Rejected { status: METHOD_NOT_ALLOWED, message: msg_method_not_allowed() },
    ))
    &&& (req.method@ == "GET"@ ==> agrees(
        r,
        resolve_pairs_spec(form_decode(encode_utf8(req.query@))),
    ))
    &&& ((req.method@ == "POST"@ && req.method@ != "GET"@) ==> match content_type_view(
        req.content_type,
        req.content_type_fallback,
    ) {
        None => agrees(
            r,
            ParamOutcome::Rejected { status: BAD_REQUEST, message: msg_bad_request() },
        ),
        Some(ct) => {
            &&& ((ct.len() == 0 || ct == "application/json"@) ==> json_body_post(req.body@, r))
            &&& ((ct.len() != 0 && ct != "application/json"@ && ct
                == "application/x-www-form-urlencoded"@) ==> form_body_post(req.body@, r))
            &&& ((ct.len() != 0 && ct != "application/json"@ && ct
                != "application/x-www-form-urlencoded"@) ==> agrees(
                r,
                ParamOutcome::Rejected {
                    status: UNSUPPORTED_MEDIA_TYPE,
                    message: msg_bad_media(),
                },
            ))
        },
    })
}

proof fn lemma_lookup_nonempty(pairs: Seq<(Seq<char>, Seq<char>)>, name: Seq<char>)
    ensures
        lookup_param(pairs, name) matches Some(v) ==> v.len() > 0,
    decreases pairs.len(),
{
    if pairs.len() == 0 {
    } else if pairs[0].0 == name {
    } else {
        lemma_lookup_nonempty(pairs.drop_first(), name);
    }
}

/// A GET query resolves to exactly its decoded `t` and `d` values: whatever
/// other pairs the decoded query carries, a query whose lookups yield `t` and
/// `d` resolves to those two URLs and nothing else.
pub proof fn lemma_get_resolution(pairs: Seq<(Seq<char>, Seq<char>)>, t: Seq<char>, d: Seq<char>)
    requires
        lookup_param(pairs, "t"@) == Some(t),
        lookup_param(pairs, "d"@) == Some(d),
    ensures
        resolve_pairs_spec(pairs) == (ParamOutcome::Resolved { t, d }),
{
}

/// A JSON body whose string fields `t` and `d` carry the same values as an
/// urlencoded query's decoded pairs resolves to the very same outcome as that
/// query.
pub proof fn lemma_json_form_agree(pairs: Seq<(Seq<char>, Seq<char>)>, t: Seq<char>, d: Seq<char>)
    requires
        lookup_param(pairs, "t"@) == Some(t),
        lookup_param(pairs, "d"@) == Some(d),
    ensures
        resolve_json_fields_spec(Some(t), Some(d)) == resolve_pairs_spec(pairs),
{
    lemma_lookup_nonempty(pairs, "t"@);
    lemma_lookup_nonempty(pairs, "d"@);
}

/// A POST body whose JSON `t` and `d` string fields carry the same values as
/// a query string's decoded lookups resolves to the very same outcome: the
/// JSON path yields the same parameters as the equivalent query string.
pub proof fn lemma_json_body_matches_query(
    text: Seq<char>,
    pairs: Seq<(Seq<char>, Seq<char>)>,
    t: Seq<char>,
    d: Seq<char>,
)
    requires
        json_str_field(text, "t"@) == Some(t),
        json_str_field(text, "d"@) == Some(d),
        lookup_param(pairs, "t"@) == Some(t),
        lookup_param(pairs, "d"@) == Some(d),
    ensures
        resolve_json_fields_spec(json_str_field(text, "t"@), json_str_field(text, "d"@))
            == resolve_pairs_spec(pairs),
{
    lemma_json_form_agree(pairs, t, d);
}

/// Two resolution results that agree with the same outcome carry the same
/// values: given what the request decoded to, parameter resolution admits
/// exactly one answer, so identical requests resolve identically.
pub proof fn lemma_resolution_deterministic(
    o: ParamOutcome,
    r1: Result<Params, ErrorResponse>,
    r2: Result<Params, ErrorResponse>,
)
    requires
        agrees(r1, o),
        agrees(r2, o),
    ensures
        match (r1, r2) {
            (Ok(p1), Ok(p2)) => p1.template_url@ == p2.template_url@ && p1.data_url@
                == p2.data_url@,
            (Err(e1), Err(e2)) => e1.status == e2.status && e1.message@ == e2.message@,
            _ => false,
        },
{
}

/// Resolve the template and data URLs from a request, dispatching on the
/// method and, for POST, on the content type.
pub fn resolve(req: &RequestInfo) -> (r: Result<Params, ErrorResponse>)
    ensures
        resolve_post(*req, r),
{
    if str_is(&req.method, "GET") {
        Params::from_urlencoded(req.query.as_str())
    } else if str_is(&req.method, "POST") {
        let ct = match get_content_type(&req.content_type, &req.content_type_fallback) {
            Err(e) => {
                return Err(e);
            },
            Ok(ct) => ct,
        };
        if ct.as_str().is_empty() || str_is(&ct, "application/json") {
            Params::from_json_body(req.body.as_slice())
        } else if str_is(&ct, "application/x-www-form-urlencoded") {
            Params::from_form_body(req.body.as_slice())
        } else {
            Err(crate::error::bad_media())
        }
    } else {
        Err(crate::error::method_not_allowed())
    }
}

} // verus!
