//! Wire responses and the encoders that frame query results as responses.

use crate::payload::{buffer_contents, buffer_from_vec, buffer_len};
use crate::store::{
    squares_error, tile_error, GatewayError, SquaresQueryResult, SquaresQueryView,
    TileQueryResult, TileQueryView,
};
use bytes::Bytes;
use vstd::prelude::*;
use vstd::utf8::encode_utf8;

verus! {

/// Which origins may read tile responses.
#[derive(Clone, Debug, PartialEq, Eq)]
pub enum CorsPolicy {
    /// Any origin: the header is sent as `*`.
    AnyOrigin,
    /// One origin: the header is sent with it.
    Origin(String),
    /// The header is not sent.
    Omit,
}

impl View for CorsPolicy {
    /// The value of the `Access-Control-Allow-Origin` header, if it is sent.
    type V = Option<Seq<char>>;

    open spec fn view(&self) -> Option<Seq<char>> {
        match *self {
            CorsPolicy::AnyOrigin => Some("*"@),
            CorsPolicy::Origin(origin) => Some(origin@),
            CorsPolicy::Omit => None,
        }
    }
}

/// The policy that a configuration value selects: `none` omits the header,
/// and any other value, `*` among them, is sent as the header's value.
pub open spec fn policy_for(setting: Seq<char>) -> Option<Seq<char>> {
    if setting == "none"@ {
        None
    } else {
        Some(setting)
    }
}

impl CorsPolicy {
    /// Reads the policy from its configuration value: `*`, `none`, or an
    /// origin.
    pub fn from_setting(setting: &str) -> (policy: CorsPolicy)
        ensures
            policy@ == policy_for(setting@),
            setting@ == "*"@ <==> policy is AnyOrigin,
            setting@ == "none"@ <==> policy is Omit,
    {
        let given: String = setting.to_owned();
        let any: String = "*".to_owned();
        let none: String = "none".to_owned();
        proof {
            reveal_strlit("*");
            reveal_strlit("none");
            assert("*"@.len() == 1);
            assert("none"@.len() == 4);
        }
        if given.eq(&any) {
            CorsPolicy::AnyOrigin
        } else if given.eq(&none) {
            CorsPolicy::Omit
        } else {
            CorsPolicy::Origin(given)
        }
    }
}

impl Default for CorsPolicy {
    /// Any origin.
    fn default() -> (policy: CorsPolicy)
        ensures
            policy == CorsPolicy::AnyOrigin,
    {
        CorsPolicy::AnyOrigin
    }
}

/// One response header.
#[derive(Clone, Debug, PartialEq, Eq)]
pub struct Header {
    pub name: String,
    pub value: String,
}

impl View for Header {
    type V = (Seq<char>, Seq<char>);

    open spec fn view(&self) -> (Seq<char>, Seq<char>) {
        (self.name@, self.value@)
    }
}

/// The body of a response: one of a closed set of forms.
#[derive(Clone, Debug, PartialEq, Eq)]
pub enum Body {
    /// No body.
    Empty,
    /// Raw bytes, sent as they are.
    Binary(Bytes),
    /// A JSON document, as text.
    Json(String),
    /// A plain-text message.
    Text(String),
}

pub ghost enum BodyView {
    Empty,
    Binary(Seq<u8>),
    Json(Seq<char>),
    Text(Seq<char>),
}

impl BodyView {
    /// The bytes that go on the wire: binary as it is, text in UTF-8.
    pub open spec fn wire_bytes(self) -> Seq<u8> {
        match self {
            BodyView::Empty => Seq::<u8>::empty(),
            BodyView::Binary(bytes) => bytes,
            BodyView::Json(text) => encode_utf8(text),
            BodyView::Text(text) => encode_utf8(text),
        }
    }
}

impl View for Body {
    type V = BodyView;

    open spec fn view(&self) -> BodyView {
        match *self {
            Body::Empty => BodyView::Empty,
            Body::Binary(bytes) => BodyView::Binary(buffer_contents(bytes)),
            Body::Json(text) => BodyView::Json(text@),
            Body::Text(text) => BodyView::Text(text@),
        }
    }
}

/// A response as it is handed to the transport: status, headers in order,
/// and body.
#[derive(Clone, Debug, PartialEq, Eq)]
pub struct WireResponse {
    pub status: u16,
    pub headers: Vec<Header>,
    pub body: Body,
}

pub ghost struct WireResponseView {
    pub status: u16,
    pub headers: Seq<(Seq<char>, Seq<char>)>,
    pub body: BodyView,
}

/// The names and values of a list of headers.
pub open spec fn header_views(headers: Seq<Header>) -> Seq<(Seq<char>, Seq<char>)> {
    headers.map_values(|h: Header| h@)
}

impl View for WireResponse {
    type V = WireResponseView;

    open spec fn view(&self) -> WireResponseView {
        WireResponseView {
            status: self.status,
            headers: header_views(self.headers@),
            body: self.body@,
        }
    }
}

impl WireResponse {
    /// The length of the body on the wire, in bytes.
    pub fn body_len(&self) -> (n: usize)
        ensures
            n == self@.body.wire_bytes().len(),
    {
        match &self.body {
            Body::Empty => 0,
            Body::Binary(bytes) => buffer_len(bytes),
            Body::Json(text) => text.as_str().as_bytes().len(),
            Body::Text(text) => text.as_str().as_bytes().len(),
        }
    }
}

/// The headers of every response of a tile route: the tile content type, and
/// the cross-origin header where the policy sends one.
pub open spec fn tile_headers_of(cors: Option<Seq<char>>) -> Seq<(Seq<char>, Seq<char>)> {
    match cors {
        Some(origin) => seq![
            ("Content-Type"@, "application/x-protobuf"@),
            ("Access-Control-Allow-Origin"@, origin),
        ],
        None => seq![("Content-Type"@, "application/x-protobuf"@)],
    }
}

/// The response to a tile request, given what the store answered: the
/// payload under status 200, and status 500 without a body for absence of
/// data and for every fault. Nothing of a fault's detail is in it.
pub open spec fn tile_response_of(
    result: TileQueryView,
    cors: Option<Seq<char>>,
) -> WireResponseView {
    match result {
        TileQueryView::Found(payload) => WireResponseView {
            status: 200,
            headers: tile_headers_of(cors),
            body: BodyView::Binary(payload),
        },
        _ => WireResponseView {
            status: tile_error(result)->0.status_of(),
            headers: tile_headers_of(cors),
            body: BodyView::Empty,
        },
    }
}

/// The response to a tile request whose address is malformed.
pub open spec fn rejection_of(cors: Option<Seq<char>>) -> WireResponseView {
    WireResponseView {
        status: GatewayError::MalformedCoordinate.status_of(),
        headers: tile_headers_of(cors),
        body: BodyView::Empty,
    }
}

/// The response to a squares request, given what the store answered: the
/// document under status 200, and status 500 with a fixed message otherwise.
pub open spec fn squares_response_of(result: SquaresQueryView) -> WireResponseView {
    match result {
        SquaresQueryView::Found(document) => WireResponseView {
            status: 200,
            headers: seq![("Content-Type"@, "application/json"@)],
            body: BodyView::Json(document),
        },
        SquaresQueryView::Empty => WireResponseView {
            status: squares_error(result)->0.status_of(),
            headers: seq![("Content-Type"@, "text/plain; charset=utf-8"@)],
            body: BodyView::Text("No GeoJSON data returned"@),
        },
        SquaresQueryView::StoreError(_, _) => WireResponseView {
            status: squares_error(result)->0.status_of(),
            headers: seq![("Content-Type"@, "text/plain; charset=utf-8"@)],
            body: BodyView::Text("Database error"@),
        },
    }
}

/// The response to a request for a route under a method it is not served
/// under.
pub open spec fn method_not_allowed_of() -> WireResponseView {
    WireResponseView {
        status: 405,
        headers: Seq::<(Seq<char>, Seq<char>)>::empty(),
        body: BodyView::Empty,
    }
}

fn header(name: &str, value: String) -> (h: Header)
    ensures
        h@ == (name@, value@),
{
    Header { name: name.to_owned(), value }
}

fn tile_headers(cors: &CorsPolicy) -> (headers: Vec<Header>)
    ensures
        header_views(headers@) == tile_headers_of(cors@),
{
    let mut headers: Vec<Header> = Vec::new();
    headers.push(header("Content-Type", "application/x-protobuf".to_owned()));
    match cors {
        CorsPolicy::AnyOrigin => {
            headers.push(header("Access-Control-Allow-Origin", "*".to_owned()));
        },
        CorsPolicy::Origin(origin) => {
            headers.push(header("Access-Control-Allow-Origin", origin.clone()));
        },
        CorsPolicy::Omit => {},
    }
    assert(header_views(headers@) =~= tile_headers_of(cors@));
    headers
}

fn single_header(name: &str, value: &str) -> (headers: Vec<Header>)
    ensures
        header_views(headers@) == seq![(name@, value@)],
{
    let mut headers: Vec<Header> = Vec::new();
    headers.push(header(name, value.to_owned()));
    assert(header_views(headers@) =~= seq![(name@, value@)]);
    headers
}

/// Frames the store's answer to a tile request.
pub fn encode_tile(result: TileQueryResult, cors: &CorsPolicy) -> (response: WireResponse)
    ensures
        response@ == tile_response_of(result@, cors@),
{
    let headers = tile_headers(cors);
    match result {
        TileQueryResult::Found(payload) => WireResponse {
            status: 200,
            headers,
            body: Body::Binary(buffer_from_vec(payload)),
        },
        TileQueryResult::Empty => WireResponse {
            status: GatewayError::NoTileData.status(),
            headers,
            body: Body::Empty,
        },
        TileQueryResult::StoreError(fault) => WireResponse {
            status: fault.error().status(),
            headers,
            body: Body::Empty,
        },
    }
}

/// The response that turns away a tile request with a malformed address.
pub fn encode_rejection(cors: &CorsPolicy) -> (response: WireResponse)
    ensures
        response@ == rejection_of(cors@),
{
    WireResponse {
        status: GatewayError::MalformedCoordinate.status(),
        headers: tile_headers(cors),
        body: Body::Empty,
    }
}

/// Frames the store's answer to a squares request.
pub fn encode_squares(result: SquaresQueryResult) -> (response: WireResponse)
    ensures
        response@ == squares_response_of(result@),
{
    match result {
        SquaresQueryResult::Found(document) => WireResponse {
            status: 200,
            headers: single_header("Content-Type", "application/json"),
            body: Body::Json(document),
        },
        SquaresQueryResult::Empty => WireResponse {
            status: GatewayError::NoTileData.status(),
            headers: single_header("Content-Type", "text/plain; charset=utf-8"),
            body: Body::Text("No GeoJSON data returned".to_owned()),
        },
        SquaresQueryResult::StoreError(fault) => WireResponse {
            status: fault.error().status(),
            headers: single_header("Content-Type", "text/plain; charset=utf-8"),
            body: Body::Text("Database error".to_owned()),
        },
    }
}

/// The response to a request under a method that its route does not serve.
pub fn encode_method_not_allowed() -> (response: WireResponse)
    ensures
        response@ == method_not_allowed_of(),
{
    let response = WireResponse { status: 405, headers: Vec::new(), body: Body::Empty };
    assert(header_views(response.headers@) =~= Seq::<(Seq<char>, Seq<char>)>::empty());
    response
}

} // verus!
