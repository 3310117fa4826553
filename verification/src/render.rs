use vstd::prelude::*;

use crate::error::BAD_REQUEST;
use crate::error::ErrorResponse;
use crate::error::msg_incorrect_json;
use crate::json::json_accepted;
use handlebars::{Context, Handlebars, Helper, HelperResult, Output, RenderContext};

verus! {

/// The outcome of rendering a template against the JSON document written in
/// `data_text`, on a fresh registry whose one custom helper is `to_json`: the
/// rendered page, or the engine's failure message. Meaningful only for texts
/// the parser accepts; a fixed function of the two texts alone.
pub uninterp spec fn render_of(template: Seq<char>, data_text: Seq<char>) -> Result<
    Seq<char>,
    Seq<char>,
>;

/// Relies on `serde_json::from_str::<Value>` for the data document, and on
/// `handlebars::Handlebars::new`, `register_helper` and `render_template` for
/// a fresh registry per call and the rendering itself. The registered
/// `to_json` helper writes its first argument back as compact JSON text via
/// `serde_json::to_string` and `Output::write` — deliberately unescaped, so
/// the inlined JSON stays syntactically valid — and contributes nothing when
/// called without arguments. All of it is deterministic in the two texts.
#[verifier::external_body]
fn render_with_to_json(template: &str, data_text: &str) -> (r: Result<String, String>)
    requires
        json_accepted(data_text@),
    ensures
        match render_of(template@, data_text@) {
            Ok(h) => r matches Ok(s) && s@ == h,
            Err(m) => r matches Err(e) && e@ == m,
        },
{
    let data: serde_json::Value = serde_json::from_str(data_text).unwrap();
    let mut hb = Handlebars::new();
    let to_json = |h: &Helper, _: &Handlebars, _: &Context, _: &mut RenderContext, out: &mut dyn Output| -> HelperResult {
        match h.param(0) {
            None => Ok(()),
            Some(p) => out.write(&serde_json::to_string(p.value()).unwrap())
                .map_err(handlebars::RenderError::from),
        }
    };
    hb.register_helper("to_json", Box::new(to_json));
    hb.render_template(template, &data).map_err(|e| e.to_string())
}

/// Render a template against the JSON data document written in `data_text`.
/// A text that does not parse is "Incorrect JSON"; a render-time failure is a
/// client-input problem, so it comes back as a BAD_REQUEST-class error
/// carrying the engine's message.
pub fn render_document(template: &str, data_text: &str) -> (r: Result<String, ErrorResponse>)
    ensures
        !json_accepted(data_text@) ==> (r matches Err(e) && e.status == BAD_REQUEST && e.message@
            == msg_incorrect_json()),
        json_accepted(data_text@) ==> match render_of(template@, data_text@) {
            Ok(h) => r matches Ok(s) && s@ == h,
            Err(m) => r matches Err(e) && e.status == BAD_REQUEST && e.message@ == m,
        },
{
    match crate::json::parse_json(data_text) {
        Err(_) => Err(crate::error::incorrect_json()),
        Ok(_) => match render_with_to_json(template, data_text) {
            Ok(html) => Ok(html),
            Err(message) => Err(ErrorResponse { status: BAD_REQUEST, message }),
        },
    }
}

} // verus!
