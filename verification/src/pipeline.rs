//! The request pipeline as decisions: what to do for a request, and what to
//! answer once the store has been asked. The caller performs the store call
//! in between, once, and hands its outcome back.

use crate::coordinate::{segment_value, tile_coordinate, TileCoordinate};
use crate::response::{
    encode_method_not_allowed, encode_rejection, encode_squares, encode_tile,
    method_not_allowed_of, rejection_of, squares_response_of, tile_headers_of,
    tile_response_of, BodyView, CorsPolicy, WireResponse, WireResponseView,
};
use crate::router::{route, route_of, Method, Route, RouteView, TileLayer};
use crate::store::{
    squares_result_of, tile_result_of, FaultKind, SquaresQueryResult, SquaresQueryView,
    StoreFault, TileQueryResult, TileQueryView,
};
use vstd::prelude::*;

verus! {

/// What the caller is to do for a request.
#[derive(Clone, Debug, PartialEq, Eq)]
pub enum Action {
    /// Ask the store for one tile, once, and finish with
    /// [`finish_tile_request`].
    QueryTile { layer: TileLayer, coordinate: TileCoordinate },
    /// Ask the store for the squares document, once, and finish with
    /// [`finish_squares_request`].
    QuerySquares,
    /// Hand the request to the point-insertion handler.
    InsertPoint,
    /// Hand the request to the place-name listing handler.
    ListPlacenames,
    /// Hand the request to static asset serving.
    ServeStatic,
    /// Answer at once, without asking the store.
    Respond(WireResponse),
}

pub ghost enum ActionView {
    QueryTile { layer: TileLayer, coordinate: TileCoordinate },
    QuerySquares,
    InsertPoint,
    ListPlacenames,
    ServeStatic,
    Respond(WireResponseView),
}

impl View for Action {
    type V = ActionView;

    open spec fn view(&self) -> ActionView {
        match *self {
            Action::QueryTile { layer, coordinate } => ActionView::QueryTile { layer, coordinate },
            Action::QuerySquares => ActionView::QuerySquares,
            Action::InsertPoint => ActionView::InsertPoint,
            Action::ListPlacenames => ActionView::ListPlacenames,
            Action::ServeStatic => ActionView::ServeStatic,
            Action::Respond(response) => ActionView::Respond(response@),
        }
    }
}

/// The action for a tile request: a store call for a well-formed address, a
/// rejection for a malformed one.
pub open spec fn tile_action_for(
    layer: TileLayer,
    zoom: Seq<char>,
    column: Seq<char>,
    row: Seq<char>,
    cors: Option<Seq<char>>,
) -> ActionView {
    match tile_coordinate(zoom, column, row) {
        Ok(coordinate) => ActionView::QueryTile { layer, coordinate },
        Err(_) => ActionView::Respond(rejection_of(cors)),
    }
}

/// The action for a routed request.
pub open spec fn action_for(route: RouteView, cors: Option<Seq<char>>) -> ActionView {
    match route {
        RouteView::Tile { layer, zoom, column, row } => tile_action_for(
            layer,
            zoom,
            column,
            row,
            cors,
        ),
        RouteView::Squares => ActionView::QuerySquares,
        RouteView::AddPoint => ActionView::InsertPoint,
        RouteView::Placenames => ActionView::ListPlacenames,
        RouteView::MethodNotAllowed => ActionView::Respond(method_not_allowed_of()),
        RouteView::StaticAsset => ActionView::ServeStatic,
    }
}

/// Validates a tile address and decides whether the store is asked. The store
/// is asked exactly when all three segments are non-negative integers.
pub fn begin_tile_request(
    layer: TileLayer,
    zoom: &str,
    column: &str,
    row: &str,
    cors: &CorsPolicy,
) -> (action: Action)
    ensures
        action@ == tile_action_for(layer, zoom@, column@, row@, cors@),
        action is QueryTile <==> segment_value(zoom@) is Some && segment_value(column@) is Some
            && segment_value(row@) is Some,
        action is QueryTile || action is Respond,
        action matches Action::QueryTile { coordinate, .. } ==> coordinate.well_formed(),
{
    match TileCoordinate::parse(zoom, column, row) {
        Ok(coordinate) => Action::QueryTile { layer, coordinate },
        Err(_) => Action::Respond(encode_rejection(cors)),
    }
}

/// Decides what to do for a request that has been routed.
pub fn plan(route: &Route, cors: &CorsPolicy) -> (action: Action)
    ensures
        action@ == action_for(route@, cors@),
{
    match route {
        Route::Tile { layer, zoom, column, row } => begin_tile_request(
            *layer,
            zoom.as_str(),
            column.as_str(),
            row.as_str(),
            cors,
        ),
        Route::Squares => Action::QuerySquares,
        Route::AddPoint => Action::InsertPoint,
        Route::Placenames => Action::ListPlacenames,
        Route::MethodNotAllowed => Action::Respond(encode_method_not_allowed()),
        Route::StaticAsset => Action::ServeStatic,
    }
}

/// Decides what to do for a request, from its method and path.
pub fn dispatch(method: Method, path: &str, cors: &CorsPolicy) -> (action: Action)
    ensures
        action@ == action_for(route_of(method, path@), cors@),
{
    let chosen = route(method, path);
    plan(&chosen, cors)
}

/// Answers a tile request from the outcome of its one store call. Whatever the
/// outcome, the answer is final: no outcome asks for a second call.
pub fn finish_tile_request(outcome: Result<Option<Vec<u8>>, StoreFault>, cors: &CorsPolicy) -> (response:
    WireResponse)
    ensures
        response@ == tile_response_of(tile_result_of(outcome), cors@),
{
    encode_tile(TileQueryResult::from_store(outcome), cors)
}

/// Answers a squares request from the outcome of its one store call.
pub fn finish_squares_request(outcome: Result<Option<String>, StoreFault>) -> (response:
    WireResponse)
    ensures
        response@ == squares_response_of(squares_result_of(outcome)),
{
    encode_squares(SquaresQueryResult::from_store(outcome))
}

/// A tile that the store rendered is answered with status 200, the tile
/// content type as the first header, and a body that is the payload byte for
/// byte, so of the payload's length.
pub proof fn lemma_found_tile_is_framed(payload: Seq<u8>, cors: Option<Seq<char>>)
    ensures
        tile_response_of(TileQueryView::Found(payload), cors).status == 200,
        tile_response_of(TileQueryView::Found(payload), cors).headers[0] == (
            "Content-Type"@,
            "application/x-protobuf"@,
        ),
        tile_response_of(TileQueryView::Found(payload), cors).body.wire_bytes() == payload,
        tile_response_of(TileQueryView::Found(payload), cors).body.wire_bytes().len()
            == payload.len(),
{
}

/// Every response of a tile route, success or failure, carries the
/// cross-origin header that the policy sends, right after the content type.
pub proof fn lemma_tile_responses_carry_cors(result: TileQueryView, origin: Seq<char>)
    ensures
        tile_response_of(result, Some(origin)).headers == tile_headers_of(Some(origin)),
        tile_response_of(result, Some(origin)).headers[1] == (
            "Access-Control-Allow-Origin"@,
            origin,
        ),
        rejection_of(Some(origin)).headers == tile_response_of(result, Some(origin)).headers,
{
}

/// A request with a segment that is not a non-negative integer is turned away
/// with status 400 and is never an action that asks the store.
pub proof fn lemma_malformed_address_never_reaches_store(
    layer: TileLayer,
    zoom: Seq<char>,
    column: Seq<char>,
    row: Seq<char>,
    cors: Option<Seq<char>>,
)
    requires
        segment_value(zoom) is None || segment_value(column) is None || segment_value(row)
            is None,
    ensures
        tile_action_for(layer, zoom, column, row, cors) == ActionView::Respond(rejection_of(cors)),
        !(tile_action_for(layer, zoom, column, row, cors) is QueryTile),
        rejection_of(cors).status == 400,
        rejection_of(cors).body == BodyView::Empty,
{
}

/// A well-formed address is handed to the store with the values that its
/// segments denote, whatever their size relative to the zoom level.
pub proof fn lemma_well_formed_address_reaches_store(
    layer: TileLayer,
    zoom: Seq<char>,
    column: Seq<char>,
    row: Seq<char>,
    cors: Option<Seq<char>>,
)
    requires
        segment_value(zoom) is Some,
        segment_value(column) is Some,
        segment_value(row) is Some,
    ensures
        tile_action_for(layer, zoom, column, row, cors) == (ActionView::QueryTile {
            layer,
            coordinate: TileCoordinate {
                zoom: segment_value(zoom)->0 as i32,
                column: segment_value(column)->0 as i32,
                row: segment_value(row)->0 as i32,
            },
        }),
{
}

/// A failed store call is answered with status 500 and no body, and the
/// answer does not depend on the fault's detail.
pub proof fn lemma_store_fault_is_bodyless_500(
    kind: FaultKind,
    detail: Seq<char>,
    other_detail: Seq<char>,
    cors: Option<Seq<char>>,
)
    ensures
        tile_response_of(TileQueryView::StoreError(kind, detail), cors).status == 500,
        tile_response_of(TileQueryView::StoreError(kind, detail), cors).body == BodyView::Empty,
        tile_response_of(TileQueryView::StoreError(kind, detail), cors).body.wire_bytes().len()
            == 0,
        tile_response_of(TileQueryView::StoreError(kind, detail), cors) == tile_response_of(
            TileQueryView::StoreError(kind, other_detail),
            cors,
        ),
{
}

/// Absence of data is answered as a store failure: status 500 and no body.
pub proof fn lemma_no_data_is_bodyless_500(cors: Option<Seq<char>>)
    ensures
        tile_response_of(TileQueryView::Empty, cors).status == 500,
        tile_response_of(TileQueryView::Empty, cors).body == BodyView::Empty,
{
}

/// A squares document is answered with status 200 and the document as the
/// body, declared as JSON.
pub proof fn lemma_squares_document_is_framed(document: Seq<char>)
    ensures
        squares_response_of(SquaresQueryView::Found(document)).status == 200,
        squares_response_of(SquaresQueryView::Found(document)).body == BodyView::Json(document),
        squares_response_of(SquaresQueryView::Found(document)).headers[0] == (
            "Content-Type"@,
            "application/json"@,
        ),
{
}

/// A squares request that yields no document is answered with status 500 and
/// a plain-text message that is not empty and is the same for every fault of
/// a kind, so holds nothing of the fault's detail.
pub proof fn lemma_squares_failure_is_generic(
    kind: FaultKind,
    detail: Seq<char>,
    other_kind: FaultKind,
    other_detail: Seq<char>,
)
    ensures
        squares_response_of(SquaresQueryView::StoreError(kind, detail)).status == 500,
        squares_response_of(SquaresQueryView::StoreError(kind, detail)).body == BodyView::Text(
            "Database error"@,
        ),
        squares_response_of(SquaresQueryView::StoreError(kind, detail)) == squares_response_of(
            SquaresQueryView::StoreError(other_kind, other_detail),
        ),
        "Database error"@.len() > 0,
        squares_response_of(SquaresQueryView::Empty).status == 500,
        squares_response_of(SquaresQueryView::Empty).body == BodyView::Text(
            "No GeoJSON data returned"@,
        ),
        "No GeoJSON data returned"@.len() > 0,
{
    reveal_strlit("Database error");
    reveal_strlit("No GeoJSON data returned");
}

} // verus!
