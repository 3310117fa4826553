//! A request-driven template renderer: a request names a template URL and a
//! data URL; the pipeline resolves those parameters, fetches both documents,
//! renders the template against the JSON data, and produces a status-coded
//! result.

mod error;
mod json;
mod params;
mod pipeline;
mod render;

pub use error::ErrorResponse;
pub use params::{
    get_content_type, get_param, resolve, HeaderValueInfo, ParamOutcome, Params, RequestInfo,
};
pub use pipeline::{
    next_fetch, pipeline_start, pipeline_step, user_agent, FetchEvent, FetchRequest,
    PipelineResult, PipelineState, FETCH_TIMEOUT_SECS,
};
pub use render::render_document;
