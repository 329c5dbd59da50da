//! The request handler: every inbound request is answered with the rendered
//! banner under status 200, or with a fixed notice under status 500 when the
//! renderer fails, so that one failed exchange never tears the process down.

use vstd::prelude::*;
use vstd::string::StringExecFns;

use crate::render::banner;
use crate::render::banner_text;
use crate::render::newline_count;
use crate::render::render_standard;
use crate::render::standard_figure_of;
use crate::render::STANDARD_FONT_HEIGHT;

verus! {

/// Status code of a successful exchange.
pub const STATUS_OK: u16 = 200;

/// Status code of an exchange whose banner could not be rendered.
pub const STATUS_INTERNAL_ERROR: u16 = 500;

/// An inbound HTTP request, as the plain values the handler receives.
pub struct HttpRequest {
    pub method: String,
    pub path: String,
    pub headers: Vec<(String, String)>,
    pub body: Vec<u8>,
}

/// The mathematical model of an inbound request.
pub struct RequestModel {
    pub method: Seq<char>,
    pub path: Seq<char>,
    pub headers: Seq<(Seq<char>, Seq<char>)>,
    pub body: Seq<u8>,
}

impl View for HttpRequest {
    type V = RequestModel;

    open spec fn view(&self) -> RequestModel {
        RequestModel {
            method: self.method@,
            path: self.path@,
            headers: self.headers@.map_values(|header: (String, String)| (header.0@, header.1@)),
            body: self.body@,
        }
    }
}

/// An outbound HTTP response: a status code and a text body.
pub struct HttpResponse {
    pub status: u16,
    pub body: String,
}

/// The mathematical model of an outbound response.
pub struct ResponseModel {
    pub status: u16,
    pub body: Seq<char>,
}

impl View for HttpResponse {
    type V = ResponseModel;

    open spec fn view(&self) -> ResponseModel {
        ResponseModel { status: self.status, body: self.body@ }
    }
}

/// The body returned when the banner cannot be rendered.
pub open spec fn error_notice() -> Seq<char> {
    "banner rendering failed"@
}

/// The error body as an executable string slice.
pub fn error_text() -> (r: &'static str)
    ensures
        r@ == error_notice(),
        r@.len() > 0,
{
    proof {
        reveal_strlit("banner rendering failed");
    }
    "banner rendering failed"
}

/// The outcome every render attempt on the banner yields: the renderer is a
/// pure function of the message, and the banner always renders.
pub open spec fn banner_render_outcome() -> Option<Seq<char>> {
    Some(standard_figure_of(banner()))
}

/// The model of an optional rendered string.
pub open spec fn rendered_view(rendered: Option<String>) -> Option<Seq<char>> {
    match rendered {
        Some(figure) => Some(figure@),
        None => None,
    }
}

/// The response owed for a render outcome: the figure under status 200, or
/// the fixed error notice under status 500.
pub open spec fn spec_response(rendered: Option<Seq<char>>) -> ResponseModel {
    match rendered {
        Some(figure) => ResponseModel { status: STATUS_OK, body: figure },
        None => ResponseModel { status: STATUS_INTERNAL_ERROR, body: error_notice() },
    }
}

/// The model of the whole handler. The request is taken and discarded: the
/// response is a function of the render outcome alone.
pub open spec fn spec_handle(req: RequestModel, rendered: Option<Seq<char>>) -> ResponseModel {
    spec_response(rendered)
}

/// Wrap a render outcome in the response owed for it.
pub fn respond(rendered: Option<String>) -> (r: HttpResponse)
    ensures
        r@ == spec_response(rendered_view(rendered)),
{
    match rendered {
        Some(figure) => HttpResponse { status: STATUS_OK, body: figure },
        None => HttpResponse {
            status: STATUS_INTERNAL_ERROR,
            body: String::from_str(error_text()),
        },
    }
}

/// Answer an inbound request: render the fixed banner with the standard font
/// and return it as the body under status 200. The banner always renders, so
/// the response is the same for every request; should the renderer ever
/// decline, the recovery path of `respond` answers with status 500 and a
/// fixed notice instead of aborting.
pub fn handle(req: &HttpRequest) -> (r: HttpResponse)
    ensures
        r@ == spec_handle(req@, banner_render_outcome()),
        r@.status == STATUS_OK,
        r@.body == standard_figure_of(banner()),
        newline_count(r@.body) == STANDARD_FONT_HEIGHT,
        r@.body.len() > 0,
{
    let rendered = render_standard(banner_text());
    let r = respond(rendered);
    proof {
        assert(rendered_view(rendered) == banner_render_outcome());
    }
    r
}

/// Input-independence: with the render outcome fixed, two requests that
/// differ in method, path, headers or body are answered identically.
pub proof fn lemma_input_independence(
    first: RequestModel,
    second: RequestModel,
    rendered: Option<Seq<char>>,
)
    ensures
        spec_handle(first, rendered) == spec_handle(second, rendered),
{
}

/// Idempotence: every render attempt on the banner yields the same outcome,
/// so two invocations, with the same or different requests, produce identical
/// responses; the handler holds no state across calls.
pub proof fn lemma_idempotence(first: RequestModel, second: RequestModel)
    ensures
        spec_handle(first, banner_render_outcome()) == spec_handle(
            second,
            banner_render_outcome(),
        ),
{
}

/// Determinism: every request is answered with status 200 and the standard
/// figure of the banner.
pub proof fn lemma_determinism(req: RequestModel)
    ensures
        spec_handle(req, banner_render_outcome()).status == STATUS_OK,
        spec_handle(req, banner_render_outcome()).body == standard_figure_of(banner()),
{
}

} // verus!
