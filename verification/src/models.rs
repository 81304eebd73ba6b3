use vstd::prelude::*;

verus! {

/// How a stored definition answers a matching request.
#[derive(Clone, Copy, Debug, PartialEq, Eq, Structural)]
pub enum ResponseType {
    Json,
    Text,
    File,
}

/// The payload a definition carries.
///
/// `Json` holds raw JSON text for an arbitrary non-string value; a stored
/// string value is held as `Text`. A file payload is a locator: either a
/// path on local disk or a `(bucket, key)` pair in remote object storage.
#[derive(Clone, Debug)]
pub enum ResponseData {
    Json(String),
    Text(String),
    FileLocal(String),
    FileRemote(String, String),
}

/// One mock definition: a route key plus the canned response.
///
/// `id` is the store-assigned identifier, absent until persisted.
#[derive(Clone, Debug)]
pub struct MockRoute {
    pub id: Option<String>,
    pub method: String,
    pub path: String,
    pub http_status_code: u16,
    pub response_type: ResponseType,
    pub response_data: ResponseData,
}

/// Spec-level image of a payload.
#[verifier::ext_equal]
pub enum ResponseDataView {
    Json(Seq<char>),
    Text(Seq<char>),
    FileLocal(Seq<char>),
    FileRemote(Seq<char>, Seq<char>),
}

impl View for ResponseData {
    type V = ResponseDataView;

    open spec fn view(&self) -> ResponseDataView {
        match self {
            ResponseData::Json(s) => ResponseDataView::Json(s@),
            ResponseData::Text(s) => ResponseDataView::Text(s@),
            ResponseData::FileLocal(s) => ResponseDataView::FileLocal(s@),
            ResponseData::FileRemote(b, k) => ResponseDataView::FileRemote(b@, k@),
        }
    }
}

/// Spec-level image of a stored definition.
#[verifier::ext_equal]
pub struct MockRouteView {
    pub id: Option<Seq<char>>,
    pub method: Seq<char>,
    pub path: Seq<char>,
    pub http_status_code: u16,
    pub response_type: ResponseType,
    pub response_data: ResponseDataView,
}

impl View for MockRoute {
    type V = MockRouteView;

    open spec fn view(&self) -> MockRouteView {
        MockRouteView {
            id: match self.id {
                Some(s) => Some(s@),
                None => None,
            },
            method: self.method@,
            path: self.path@,
            http_status_code: self.http_status_code,
            response_type: self.response_type,
            response_data: self.response_data@,
        }
    }
}

/// A partial update: only the supplied fields change. The route key of a
/// definition can never be patched.
#[derive(Clone, Debug)]
pub struct MockPatch {
    pub http_status_code: Option<u16>,
    pub response_type: Option<ResponseType>,
    pub response_data: Option<ResponseData>,
}

/// Spec-level image of a partial update.
#[verifier::ext_equal]
pub struct MockPatchView {
    pub http_status_code: Option<u16>,
    pub response_type: Option<ResponseType>,
    pub response_data: Option<ResponseDataView>,
}

impl View for MockPatch {
    type V = MockPatchView;

    open spec fn view(&self) -> MockPatchView {
        MockPatchView {
            http_status_code: self.http_status_code,
            response_type: self.response_type,
            response_data: match &self.response_data {
                Some(d) => Some(d@),
                None => None,
            },
        }
    }
}

impl MockPatchView {
    /// A patch that supplies nothing is invalid.
    pub open spec fn is_empty(self) -> bool {
        &&& self.http_status_code is None
        &&& self.response_type is None
        &&& self.response_data is None
    }
}

impl MockPatch {
    pub fn is_empty(&self) -> (r: bool)
        ensures
            r == self@.is_empty(),
    {
        self.http_status_code.is_none() && self.response_type.is_none()
            && self.response_data.is_none()
    }
}

/// The record a patch leaves behind: the supplied fields replaced, the
/// rest, and always the route key, kept.
pub open spec fn patched(r: MockRouteView, p: MockPatchView) -> MockRouteView {
    MockRouteView {
        http_status_code: match p.http_status_code {
            Some(c) => c,
            None => r.http_status_code,
        },
        response_type: match p.response_type {
            Some(t) => t,
            None => r.response_type,
        },
        response_data: match p.response_data {
            Some(d) => d,
            None => r.response_data,
        },
        ..r
    }
}

/// Status code a definition gets when none is supplied.
pub fn default_http_status_code() -> (c: u16)
    ensures
        c == 200,
{
    200
}

} // verus!
