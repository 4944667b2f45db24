use vstd::prelude::*;

verus! {

/// Protocol version stamped on a response.
#[derive(Clone, Copy, PartialEq, Eq, Structural, Debug)]
pub enum Version {
    Http10,
    Http11,
}

/// The status codes the dispatch core can put on a response.  Keeping them
/// as a closed set makes every constructed response carry a valid code.
#[derive(Clone, Copy, PartialEq, Eq, Structural, Debug)]
pub enum StatusCode {
    OK,
    BadRequest,
    NotFound,
}

impl StatusCode {
    /// The numeric code this status puts on the wire.
    pub open spec fn spec_code(self) -> u16 {
        match self {
            StatusCode::OK => 200,
            StatusCode::BadRequest => 400,
            StatusCode::NotFound => 404,
        }
    }

    /// The numeric code this status puts on the wire.
    pub fn code(self) -> (c: u16)
        ensures
            c == self.spec_code(),
    {
        match self {
            StatusCode::OK => 200,
            StatusCode::BadRequest => 400,
            StatusCode::NotFound => 404,
        }
    }
}

/// A parsed request as the dispatch core sees it.  The wire-level parser
/// (an external collaborator, outside this library) turns the raw bytes of
/// a connection into these plain values; only the path takes part in
/// routing, the rest is handed through to the selected handler.
pub struct ApiRequest {
    pub method: String,
    pub path: String,
    pub body: Vec<u8>,
}

/// Mathematical image of an [`ApiRequest`].
pub struct ApiRequestView {
    pub method: Seq<char>,
    pub path: Seq<char>,
    pub body: Seq<u8>,
}

impl View for ApiRequest {
    type V = ApiRequestView;

    open spec fn view(&self) -> ApiRequestView {
        ApiRequestView { method: self.method@, path: self.path@, body: self.body@ }
    }
}

impl DeepView for ApiRequest {
    type V = ApiRequestView;

    open spec fn deep_view(&self) -> ApiRequestView {
        self.view()
    }
}

/// A response owed back on the connection that produced its request:
/// status code, protocol version and an optional body.
pub struct ApiResponse {
    pub version: Version,
    pub status: StatusCode,
    pub body: Option<String>,
}

/// Mathematical image of an [`ApiResponse`].
pub struct ApiResponseView {
    pub version: Version,
    pub status: StatusCode,
    pub body: Option<Seq<char>>,
}

impl View for ApiResponse {
    type V = ApiResponseView;

    open spec fn view(&self) -> ApiResponseView {
        ApiResponseView {
            version: self.version,
            status: self.status,
            body: match self.body {
                Some(ref b) => Some(b@),
                None => None,
            },
        }
    }
}

impl DeepView for ApiResponse {
    type V = ApiResponseView;

    open spec fn deep_view(&self) -> ApiResponseView {
        self.view()
    }
}

/// The bodiless response for a parsed request that no route claims.
pub open spec fn not_found_view() -> ApiResponseView {
    ApiResponseView { version: Version::Http11, status: StatusCode::NotFound, body: None }
}

/// The bodiless response for a connection whose bytes would not parse.
pub open spec fn bad_request_view() -> ApiResponseView {
    ApiResponseView { version: Version::Http11, status: StatusCode::BadRequest, body: None }
}

impl ApiResponse {
    /// Builds the not-found response.
    pub fn not_found() -> (r: ApiResponse)
        ensures
            r@ == not_found_view(),
    {
        ApiResponse { version: Version::Http11, status: StatusCode::NotFound, body: None }
    }

    /// Builds the bad-request response.
    pub fn bad_request() -> (r: ApiResponse)
        ensures
            r@ == bad_request_view(),
    {
        ApiResponse { version: Version::Http11, status: StatusCode::BadRequest, body: None }
    }
}

} // verus!
