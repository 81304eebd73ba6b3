use vstd::prelude::*;
use crate::json::json_quote;
use crate::json::json_string_of;
use crate::models::MockRoute;
use crate::models::MockRouteView;
use crate::models::ResponseData;
use crate::models::ResponseDataView;
use crate::models::ResponseType;
use crate::normalize::norm_method;
use crate::normalize::norm_path;
use crate::normalize::normalize_method;
use crate::normalize::normalize_path;
use crate::storage::RetrievalOutcome;
use crate::storage::RetrievalOutcomeView;
use crate::storage::RetrievalPlan;
use crate::storage::S3Config;
use crate::storage::opt_cfg_view;
use crate::storage::spec_plan_retrieval;
use crate::storage::plan_retrieval;
use crate::store::MockStore;

verus! {

/// One payload shape the responder puts on the wire.
#[derive(Debug)]
pub enum WirePayload {
    /// Served as `application/json`.
    Json { body: String },
    /// Served as `text/plain`.
    PlainText { body: String },
    /// Served as `application/octet-stream`, as an attachment under the
    /// given download name.
    Octets { body: Vec<u8>, download_name: String },
    /// An empty body with a `Location` header.
    Redirect { location: String },
    /// A bare message body with no declared content type.
    Message { body: String },
}

/// Spec-level image of a wire payload.
#[verifier::ext_equal]
pub enum WirePayloadView {
    Json { body: Seq<char> },
    PlainText { body: Seq<char> },
    Octets { body: Seq<u8>, download_name: Seq<char> },
    Redirect { location: Seq<char> },
    Message { body: Seq<char> },
}

impl View for WirePayload {
    type V = WirePayloadView;

    open spec fn view(&self) -> WirePayloadView {
        match self {
            WirePayload::Json { body } => WirePayloadView::Json { body: body@ },
            WirePayload::PlainText { body } => WirePayloadView::PlainText { body: body@ },
            WirePayload::Octets { body, download_name } => WirePayloadView::Octets {
                body: body@,
                download_name: download_name@,
            },
            WirePayload::Redirect { location } => WirePayloadView::Redirect {
                location: location@,
            },
            WirePayload::Message { body } => WirePayloadView::Message { body: body@ },
        }
    }
}

/// A finished wire response.
#[derive(Debug)]
pub struct WireResponse {
    pub status: u16,
    pub payload: WirePayload,
}

/// Spec-level image of a wire response.
#[verifier::ext_equal]
pub struct WireResponseView {
    pub status: u16,
    pub payload: WirePayloadView,
}

impl View for WireResponse {
    type V = WireResponseView;

    open spec fn view(&self) -> WireResponseView {
        WireResponseView { status: self.status, payload: self.payload@ }
    }
}

/// A status code usable on the wire; anything outside `100..=999` falls
/// back to 200.
pub open spec fn effective_status(c: u16) -> u16 {
    if 100 <= c && c <= 999 {
        c
    } else {
        200
    }
}

pub fn wire_status(c: u16) -> (r: u16)
    ensures
        r == effective_status(c),
{
    if 100 <= c && c <= 999 {
        c
    } else {
        200
    }
}

/// The JSON text a payload is served as when the definition's type is
/// Json: raw JSON as stored, a string value as its literal, a local
/// locator as its path's literal, and a remote locator as its
/// bucket-and-key object.
pub open spec fn json_body_of(d: ResponseDataView) -> Seq<char> {
    match d {
        ResponseDataView::Json(raw) => raw,
        ResponseDataView::Text(s) => json_string_of(s),
        ResponseDataView::FileLocal(p) => json_string_of(p),
        ResponseDataView::FileRemote(b, k) => "{\"bucket\":"@ + json_string_of(b) + ",\"key\":"@
            + json_string_of(k) + "}"@,
    }
}

pub fn render_json_body(d: &ResponseData) -> (r: String)
    ensures
        r@ == json_body_of(d@),
{
    match d {
        ResponseData::Json(raw) => raw.clone(),
        ResponseData::Text(s) => json_quote(s.as_str()),
        ResponseData::FileLocal(p) => json_quote(p.as_str()),
        ResponseData::FileRemote(b, k) => {
            let mut r: String = String::from_str("{\"bucket\":");
            let bq = json_quote(b.as_str());
            r.append(bq.as_str());
            r.append(",\"key\":");
            let kq = json_quote(k.as_str());
            r.append(kq.as_str());
            r.append("}");
            assert(r@ =~= json_body_of(d@));
            r
        },
    }
}

/// The text a payload is served as when the definition's type is Text:
/// the stored string value if the payload is textual — a local locator
/// counts as its path — and empty otherwise.
pub open spec fn text_body_of(d: ResponseDataView) -> Seq<char> {
    match d {
        ResponseDataView::Text(s) => s,
        ResponseDataView::FileLocal(p) => p,
        ResponseDataView::Json(_) => Seq::<char>::empty(),
        ResponseDataView::FileRemote(_, _) => Seq::<char>::empty(),
    }
}

pub fn render_text_body(d: &ResponseData) -> (r: String)
    ensures
        r@ == text_body_of(d@),
{
    match d {
        ResponseData::Text(s) => s.clone(),
        ResponseData::FileLocal(p) => p.clone(),
        ResponseData::Json(_) => String::new(),
        ResponseData::FileRemote(_, _) => String::new(),
    }
}

/// The generic body an unmatched route is answered with: the normalized
/// key echoed back, marked as mocked.
pub open spec fn fallback_body(method: Seq<char>, path: Seq<char>) -> Seq<char> {
    "{\"path\":"@ + json_string_of(path) + ",\"method\":"@ + json_string_of(method)
        + ",\"status\":\"mocked\"}"@
}

/// Unmatched routes never fail: the answer is always a 200 carrying the
/// generic mocked payload for the normalized key.
pub fn fallback_response(method: &str, path: &str) -> (r: WireResponse)
    ensures
        r@.status == 200,
        r@.payload == (WirePayloadView::Json {
            body: fallback_body(norm_method(method@), norm_path(path@)),
        }),
{
    let m = normalize_method(method);
    let p = normalize_path(path);
    let mut body: String = String::from_str("{\"path\":");
    let pq = json_quote(p.as_str());
    body.append(pq.as_str());
    body.append(",\"method\":");
    let mq = json_quote(m.as_str());
    body.append(mq.as_str());
    body.append(",\"status\":\"mocked\"}");
    assert(body@ =~= fallback_body(norm_method(method@), norm_path(path@)));
    WireResponse { status: 200, payload: WirePayload::Json { body } }
}

/// What the dispatcher decides from a resolved definition: either a
/// finished response, or the file retrieval that must run first, with
/// the status code to use once it has.
#[derive(Debug)]
pub enum DispatchDecision {
    Respond(WireResponse),
    NeedFile { plan: RetrievalPlan, status: u16 },
}

/// Spec-level image of a dispatch decision.
#[verifier::ext_equal]
pub enum DispatchDecisionView {
    Respond(WireResponseView),
    NeedFile { plan: crate::storage::RetrievalPlanView, status: u16 },
}

impl View for DispatchDecision {
    type V = DispatchDecisionView;

    open spec fn view(&self) -> DispatchDecisionView {
        match self {
            DispatchDecision::Respond(r) => DispatchDecisionView::Respond(r@),
            DispatchDecision::NeedFile { plan, status } => DispatchDecisionView::NeedFile {
                plan: plan@,
                status: *status,
            },
        }
    }
}

/// The response-type table: a Json definition answers with its payload as
/// JSON under its (effective) status code; a Text definition answers with
/// its payload's text as plain text; a File definition needs its locator
/// retrieved first.
pub open spec fn spec_dispatch_mock(
    m: MockRouteView,
    cfg: Option<crate::storage::S3ConfigView>,
) -> DispatchDecisionView {
    match m.response_type {
        ResponseType::Json => DispatchDecisionView::Respond(
            WireResponseView {
                status: effective_status(m.http_status_code),
                payload: WirePayloadView::Json { body: json_body_of(m.response_data) },
            },
        ),
        ResponseType::Text => DispatchDecisionView::Respond(
            WireResponseView {
                status: effective_status(m.http_status_code),
                payload: WirePayloadView::PlainText { body: text_body_of(m.response_data) },
            },
        ),
        ResponseType::File => DispatchDecisionView::NeedFile {
            plan: spec_plan_retrieval(m.response_data, cfg),
            status: m.http_status_code,
        },
    }
}

pub fn dispatch_mock(mock: &MockRoute, cfg: &Option<S3Config>) -> (d: DispatchDecision)
    ensures
        d@ == spec_dispatch_mock(mock@, opt_cfg_view(*cfg)),
{
    match mock.response_type {
        ResponseType::Json => DispatchDecision::Respond(
            WireResponse {
                status: wire_status(mock.http_status_code),
                payload: WirePayload::Json { body: render_json_body(&mock.response_data) },
            },
        ),
        ResponseType::Text => DispatchDecision::Respond(
            WireResponse {
                status: wire_status(mock.http_status_code),
                payload: WirePayload::PlainText { body: render_text_body(&mock.response_data) },
            },
        ),
        ResponseType::File => DispatchDecision::NeedFile {
            plan: plan_retrieval(&mock.response_data, cfg),
            status: mock.http_status_code,
        },
    }
}

/// Dispatch against the store: a matching definition is answered by the
/// table above; an unmatched route gets the generic mocked payload.
pub fn dispatch_lookup(
    store: &MockStore,
    cfg: &Option<S3Config>,
    method: &str,
    path: &str,
) -> (d: DispatchDecision)
    requires
        store.wf(),
    ensures
        store@.contains_key((norm_method(method@), norm_path(path@))) ==> d@
            == spec_dispatch_mock(
            store@[(norm_method(method@), norm_path(path@))],
            opt_cfg_view(*cfg),
        ),
        !store@.contains_key((norm_method(method@), norm_path(path@))) ==> d@
            == DispatchDecisionView::Respond(
            WireResponseView {
                status: 200,
                payload: WirePayloadView::Json {
                    body: fallback_body(norm_method(method@), norm_path(path@)),
                },
            },
        ),
{
    match store.lookup(method, path) {
        Some(mock) => dispatch_mock(mock, cfg),
        None => DispatchDecision::Respond(fallback_response(method, path)),
    }
}

/// Finishes a redirect-mode file dispatch: HTTP 307 pointing at the
/// computed public URL.
pub fn redirect_response(url: String) -> (r: WireResponse)
    ensures
        r@.status == 307,
        r@.payload == (WirePayloadView::Redirect { location: url@ }),
{
    WireResponse { status: 307, payload: WirePayload::Redirect { location: url } }
}

/// Finishes a file dispatch whose locator cannot be served because no
/// remote backend is configured.
pub fn unavailable_response() -> (r: WireResponse)
    ensures
        r@.status == 500,
        r@.payload == (WirePayloadView::Message { body: "s3 not configured"@ }),
{
    WireResponse {
        status: 500,
        payload: WirePayload::Message { body: String::from_str("s3 not configured") },
    }
}

/// Finishes a streamed file dispatch once the planned read ran: streamed
/// bytes go out as an attachment under the definition's status code; an
/// absent object is a 404, and any other read failure a 500.
pub fn finish_file(status: u16, outcome: RetrievalOutcome) -> (r: WireResponse)
    ensures
        match outcome@ {
            RetrievalOutcomeView::Stream { bytes, download_name } => r@ == (WireResponseView {
                status: effective_status(status),
                payload: WirePayloadView::Octets { body: bytes, download_name },
            }),
            RetrievalOutcomeView::Missing => r@ == (WireResponseView {
                status: 404,
                payload: WirePayloadView::Message { body: "file not found"@ },
            }),
            RetrievalOutcomeView::ReadFailure => r@ == (WireResponseView {
                status: 500,
                payload: WirePayloadView::Message { body: "read error"@ },
            }),
        },
{
    match outcome {
        RetrievalOutcome::Stream { bytes, download_name } => WireResponse {
            status: wire_status(status),
            payload: WirePayload::Octets { body: bytes, download_name },
        },
        RetrievalOutcome::Missing => WireResponse {
            status: 404,
            payload: WirePayload::Message { body: String::from_str("file not found") },
        },
        RetrievalOutcome::ReadFailure => WireResponse {
            status: 500,
            payload: WirePayload::Message { body: String::from_str("read error") },
        },
    }
}

/// The acknowledgement bodies of the write path and the health probe.
pub fn ok_ack_body() -> (r: String)
    ensures
        r@ == "{\"status\":\"ok\"}"@,
{
    String::from_str("{\"status\":\"ok\"}")
}

/// The acknowledgement of a file define, carrying the stored locator as
/// the same JSON the definition would be served with.
pub open spec fn file_ack_body(d: ResponseDataView) -> Seq<char> {
    "{\"status\":\"ok\",\"file\":"@ + json_body_of(d) + "}"@
}

pub fn file_define_ack_body(d: &ResponseData) -> (r: String)
    ensures
        r@ == file_ack_body(d@),
{
    let mut r: String = String::from_str("{\"status\":\"ok\",\"file\":");
    let body = render_json_body(d);
    r.append(body.as_str());
    r.append("}");
    r
}

} // verus!
