use vstd::prelude::*;

use crate::error::BAD_REQUEST;
use crate::error::INTERNAL_SERVER_ERROR;
use crate::error::UNSUPPORTED_MEDIA_TYPE;
use crate::error::ErrorResponse;
use crate::error::msg_bad_media;
use crate::error::msg_incorrect_json;
use crate::error::msg_transport_failure;
use crate::json::json_accepted;
use crate::params::Params;
use crate::params::RequestInfo;
use crate::params::resolve;
use crate::params::resolve_post;
use crate::params::utf8_decode;
use crate::render::render_document;
use crate::render::render_of;
use vstd::string::StringExecFns;
use vstd::utf8::decode_utf8;
use vstd::utf8::valid_utf8;

verus! {

/// The fixed timeout, in seconds, that a remote fetch must respect.
pub const FETCH_TIMEOUT_SECS: u64 = 1;

pub open spec fn user_agent_spec() -> Seq<char> {
    "MyCGIClient/1.0"@
}

pub open spec fn template_accept_spec() -> Seq<char> {
    "text/html,text/plain"@
}

pub open spec fn data_accept_spec() -> Seq<char> {
    "application/json"@
}

/// The client identifier every fetch carries.
pub fn user_agent() -> (r: String)
    ensures
        r@ == user_agent_spec(),
{
    String::from_str("MyCGIClient/1.0")
}

/// The final outcome of one request: a rendered page, or a status-coded
/// plain-text failure.
pub enum PipelineResult {
    Success { body: String },
    Failure { status: u16, body: String },
}

pub enum ResultView {
    Success { body: Seq<char> },
    Failure { status: u16, body: Seq<char> },
}

impl View for PipelineResult {
    type V = ResultView;

    open spec fn view(&self) -> ResultView {
        match self {
            PipelineResult::Success { body } => ResultView::Success { body: body@ },
            PipelineResult::Failure { status, body } => ResultView::Failure {
                status: *status,
                body: body@,
            },
        }
    }
}

/// What one remote fetch came back with: the document's bytes, an upstream
/// non-success status with its summary line, or a transport failure.
pub enum FetchEvent {
    Success { body: Vec<u8> },
    HttpError { status: u16, summary: String },
    Transport,
}

pub enum EventView {
    Success { body: Seq<u8> },
    HttpError { status: u16, summary: Seq<char> },
    Transport,
}

impl View for FetchEvent {
    type V = EventView;

    open spec fn view(&self) -> EventView {
        match self {
            FetchEvent::Success { body } => EventView::Success { body: body@ },
            FetchEvent::HttpError { status, summary } => EventView::HttpError {
                status: *status,
                summary: summary@,
            },
            FetchEvent::Transport => EventView::Transport,
        }
    }
}

/// Where one request stands: waiting for the template document, waiting for
/// the data document with the template already in hand, or finished.
pub enum PipelineState {
    FetchingTemplate { params: Params },
    FetchingData { data_url: String, template: String },
    Done { result: PipelineResult },
}

pub enum StateView {
    FetchingTemplate { template_url: Seq<char>, data_url: Seq<char> },
    FetchingData { data_url: Seq<char>, template: Seq<char> },
    Done { result: ResultView },
}

impl View for PipelineState {
    type V = StateView;

    open spec fn view(&self) -> StateView {
        match self {
            PipelineState::FetchingTemplate { params } => StateView::FetchingTemplate {
                template_url: params.template_url@,
                data_url: params.data_url@,
            },
            PipelineState::FetchingData { data_url, template } => StateView::FetchingData {
                data_url: data_url@,
                template: template@,
            },
            PipelineState::Done { result } => StateView::Done { result: result@ },
        }
    }
}

/// The fetch the pipeline asks for next: which URL, under which Accept
/// header.
pub struct FetchRequest {
    pub url: String,
    pub accept: String,
}

pub open spec fn state_of_resolution(r: Result<Params, ErrorResponse>) -> StateView {
    match r {
        Ok(p) => StateView::FetchingTemplate {
            template_url: p.template_url@,
            data_url: p.data_url@,
        },
        Err(e) => StateView::Done {
            result: ResultView::Failure { status: e.status, body: e.message@ },
        },
    }
}

/// Begin a request: resolve its parameters, and either wait for the template
/// document or finish at once with the resolution failure. No fetch is asked
/// for before resolution succeeds.
pub fn pipeline_start(req: &RequestInfo) -> (s: PipelineState)
    ensures
        exists|r: Result<Params, ErrorResponse>|
            #[trigger] resolve_post(*req, r) && s@ == state_of_resolution(r),
{
    let r = resolve(req);
    let ghost gr = r;
    let s = match r {
        Ok(p) => PipelineState::FetchingTemplate { params: p },
        Err(e) => PipelineState::Done {
            result: PipelineResult::Failure { status: e.status, body: e.message },
        },
    };
    proof {
        assert(resolve_post(*req, gr) && s@ == state_of_resolution(gr));
    }
    s
}

/// The fetch the current state calls for: the template URL under
/// `text/html,text/plain`, the data URL under `application/json`, or nothing
/// once the pipeline is done.
pub fn next_fetch(state: &PipelineState) -> (r: Option<FetchRequest>)
    ensures
        match state@ {
            StateView::FetchingTemplate { template_url, .. } => r matches Some(f) && f.url@
                == template_url && f.accept@ == template_accept_spec(),
            StateView::FetchingData { data_url, .. } => r matches Some(f) && f.url@ == data_url
                && f.accept@ == data_accept_spec(),
            StateView::Done { .. } => r is None,
        },
{
    match state {
        PipelineState::FetchingTemplate { params } => Some(
            FetchRequest {
                url: params.template_url.clone(),
                accept: String::from_str("text/html,text/plain"),
            },
        ),
        PipelineState::FetchingData { data_url, .. } => Some(
            FetchRequest { url: data_url.clone(), accept: String::from_str("application/json") },
        ),
        PipelineState::Done { .. } => None,
    }
}

pub open spec fn done_failure(status: u16, body: Seq<char>) -> StateView {
    StateView::Done { result: ResultView::Failure { status, body } }
}

/// Everything one transition promises. Each fetch failure maps to a pinned
/// failure state; a fetched template must be UTF-8; a fetched data document
/// must parse as JSON; the final transition hands the template and data to
/// the engine, and its outcome is the named render result: the rendered page,
/// or a BAD_REQUEST failure carrying the engine's message.
pub open spec fn step_post(s: StateView, e: EventView, t: StateView) -> bool {
    match s {
        StateView::FetchingTemplate { template_url, data_url } => match e {
            EventView::Success { body } => if valid_utf8(body) {
                t == (StateView::FetchingData { data_url, template: decode_utf8(body) })
            } else {
                t == done_failure(UNSUPPORTED_MEDIA_TYPE, msg_bad_media())
            },
            EventView::HttpError { status, summary } => t == done_failure(status, summary),
            EventView::Transport => t == done_failure(
                INTERNAL_SERVER_ERROR,
                msg_transport_failure(),
            ),
        },
        StateView::FetchingData { data_url, template } => match e {
            EventView::Success { body } => if !valid_utf8(body) || !json_accepted(
                decode_utf8(body),
            ) {
                t == done_failure(BAD_REQUEST, msg_incorrect_json())
            } else {
                match render_of(template, decode_utf8(body)) {
                    Ok(h) => t == (StateView::Done { result: ResultView::Success { body: h } }),
                    Err(m) => t == done_failure(BAD_REQUEST, m),
                }
            },
            EventView::HttpError { status, summary } => t == done_failure(status, summary),
            EventView::Transport => t == done_failure(
                INTERNAL_SERVER_ERROR,
                msg_transport_failure(),
            ),
        },
        StateView::Done { .. } => t == s,
    }
}

fn failure_state(e: ErrorResponse) -> (s: PipelineState)
    ensures
        s@ == done_failure(e.status, e.message@),
{
    PipelineState::Done { result: PipelineResult::Failure { status: e.status, body: e.message } }
}

/// Feed one fetch outcome to the pipeline and take its next state.
pub fn pipeline_step(state: PipelineState, event: FetchEvent) -> (next: PipelineState)
    ensures
        step_post(state@, event@, next@),
{
    match state {
        PipelineState::FetchingTemplate { params } => match event {
            FetchEvent::Success { body } => match utf8_decode(body.as_slice()) {
                None => failure_state(crate::error::bad_media()),
                Some(s) => PipelineState::FetchingData {
                    data_url: params.data_url,
                    template: String::from_str(s),
                },
            },
            FetchEvent::HttpError { status, summary } => PipelineState::Done {
                result: PipelineResult::Failure { status, body: summary },
            },
            FetchEvent::Transport => failure_state(crate::error::transport_failure()),
        },
        PipelineState::FetchingData { data_url: _, template } => match event {
            FetchEvent::Success { body } => match utf8_decode(body.as_slice()) {
                None => failure_state(crate::error::incorrect_json()),
                Some(s) => match render_document(template.as_str(), s) {
                    Ok(html) => PipelineState::Done {
                        result: PipelineResult::Success { body: html },
                    },
                    Err(e) => failure_state(e),
                },
            },
            FetchEvent::HttpError { status, summary } => PipelineState::Done {
                result: PipelineResult::Failure { status, body: summary },
            },
            FetchEvent::Transport => failure_state(crate::error::transport_failure()),
        },
        PipelineState::Done { result } => PipelineState::Done { result },
    }
}

/// Replaying a fetch outcome changes nothing: the transition relation admits
/// exactly one successor per state and event, so identical inputs and
/// identical fetch outcomes drive the pipeline through identical states to
/// the same result.
pub proof fn lemma_step_deterministic(s: StateView, e: EventView, t1: StateView, t2: StateView)
    requires
        step_post(s, e, t1),
        step_post(s, e, t2),
    ensures
        t1 == t2,
{
}

/// The pipeline is linear and terminal: from any state, two further fetch
/// outcomes always leave it finished, and a finished pipeline never changes
/// its result — there is no branching back and no retry.
pub proof fn lemma_two_steps_finish(
    s: StateView,
    e1: EventView,
    t1: StateView,
    e2: EventView,
    t2: StateView,
)
    requires
        step_post(s, e1, t1),
        step_post(t1, e2, t2),
    ensures
        t2 matches StateView::Done { .. },
{
}

} // verus!
