//! What the tile store answered, as the pipeline sees it.

use crate::router::TileLayer;
use vstd::prelude::*;

verus! {

/// The largest number of connections that the pool to the store may hold,
/// and so the largest number of store calls in flight at once.
pub const MAX_STORE_CONNECTIONS: u32 = 5;

/// The statement that asks the store for one tile of a layer. Its three
/// parameters are zoom, column and row, in that order.
pub open spec fn tile_statement_of(layer: TileLayer) -> Seq<char> {
    match layer {
        TileLayer::Base => "SELECT get_tile($1, $2, $3) as tile"@,
        TileLayer::Points => "SELECT get_tile_points($1, $2, $3) as tile"@,
    }
}

/// The statement that asks the store for the squares document.
pub open spec fn squares_statement_of() -> Seq<char> {
    "SELECT get_squares_geojson()"@
}

pub fn tile_statement(layer: TileLayer) -> (statement: &'static str)
    ensures
        statement@ == tile_statement_of(layer),
{
    match layer {
        TileLayer::Base => "SELECT get_tile($1, $2, $3) as tile",
        TileLayer::Points => "SELECT get_tile_points($1, $2, $3) as tile",
    }
}

pub fn squares_statement() -> (statement: &'static str)
    ensures
        statement@ == squares_statement_of(),
{
    "SELECT get_squares_geojson()"
}

/// How a call to the store failed.
#[derive(Clone, Copy, Debug, PartialEq, Eq, Structural)]
pub enum FaultKind {
    /// No connection could be had: the pool is exhausted, the call timed out
    /// or the network failed.
    Unavailable,
    /// The store ran the call and reported a fault of its own.
    QueryFault,
}

/// A failed call to the store. `detail` is for server-side diagnostics only
/// and never reaches a response.
#[derive(Clone, Debug, PartialEq, Eq)]
pub struct StoreFault {
    pub kind: FaultKind,
    pub detail: String,
}

/// The result of asking the store for one tile.
#[derive(Clone, Debug, PartialEq, Eq)]
pub enum TileQueryResult {
    /// The store rendered a tile.
    Found(Vec<u8>),
    /// The store ran the call and has no tile for the coordinate.
    Empty,
    /// The call failed.
    StoreError(StoreFault),
}

pub ghost enum TileQueryView {
    Found(Seq<u8>),
    Empty,
    StoreError(FaultKind, Seq<char>),
}

impl View for TileQueryResult {
    type V = TileQueryView;

    open spec fn view(&self) -> TileQueryView {
        match *self {
            TileQueryResult::Found(payload) => TileQueryView::Found(payload@),
            TileQueryResult::Empty => TileQueryView::Empty,
            TileQueryResult::StoreError(fault) => TileQueryView::StoreError(
                fault.kind,
                fault.detail@,
            ),
        }
    }
}

/// The result of asking the store for the squares document.
#[derive(Clone, Debug, PartialEq, Eq)]
pub enum SquaresQueryResult {
    /// The store produced a document; the text is its JSON serialization.
    Found(String),
    /// The store ran the call and returned no document.
    Empty,
    /// The call failed.
    StoreError(StoreFault),
}

pub ghost enum SquaresQueryView {
    Found(Seq<char>),
    Empty,
    StoreError(FaultKind, Seq<char>),
}

impl View for SquaresQueryResult {
    type V = SquaresQueryView;

    open spec fn view(&self) -> SquaresQueryView {
        match *self {
            SquaresQueryResult::Found(document) => SquaresQueryView::Found(document@),
            SquaresQueryResult::Empty => SquaresQueryView::Empty,
            SquaresQueryResult::StoreError(fault) => SquaresQueryView::StoreError(
                fault.kind,
                fault.detail@,
            ),
        }
    }
}

/// The ways in which a request can fail.
#[derive(Clone, Copy, Debug, PartialEq, Eq, Structural)]
pub enum GatewayError {
    /// A path segment is not a non-negative integer.
    MalformedCoordinate,
    /// The store could not be reached.
    StoreUnavailable,
    /// The store reported a fault.
    StoreQueryFault,
    /// The store has nothing for the request.
    NoTileData,
}

impl GatewayError {
    /// The status that the failure is surfaced as: a client error for a
    /// malformed coordinate, a server error for everything the store did,
    /// absence of data included.
    pub open spec fn status_of(self) -> u16 {
        match self {
            GatewayError::MalformedCoordinate => 400,
            GatewayError::StoreUnavailable => 500,
            GatewayError::StoreQueryFault => 500,
            GatewayError::NoTileData => 500,
        }
    }

    pub fn status(self) -> (code: u16)
        ensures
            code == self.status_of(),
    {
        match self {
            GatewayError::MalformedCoordinate => 400,
            GatewayError::StoreUnavailable => 500,
            GatewayError::StoreQueryFault => 500,
            GatewayError::NoTileData => 500,
        }
    }
}

/// The failure that a kind of store fault is reported as.
pub open spec fn fault_error(kind: FaultKind) -> GatewayError {
    match kind {
        FaultKind::Unavailable => GatewayError::StoreUnavailable,
        FaultKind::QueryFault => GatewayError::StoreQueryFault,
    }
}

/// The failure that a tile query result stands for, if any.
pub open spec fn tile_error(result: TileQueryView) -> Option<GatewayError> {
    match result {
        TileQueryView::Found(_) => None,
        TileQueryView::Empty => Some(GatewayError::NoTileData),
        TileQueryView::StoreError(kind, _) => Some(fault_error(kind)),
    }
}

/// The failure that a squares query result stands for, if any.
pub open spec fn squares_error(result: SquaresQueryView) -> Option<GatewayError> {
    match result {
        SquaresQueryView::Found(_) => None,
        SquaresQueryView::Empty => Some(GatewayError::NoTileData),
        SquaresQueryView::StoreError(kind, _) => Some(fault_error(kind)),
    }
}

/// What the store's answer to a tile call amounts to.
pub open spec fn tile_result_of(outcome: Result<Option<Vec<u8>>, StoreFault>) -> TileQueryView {
    match outcome {
        Ok(Some(payload)) => TileQueryView::Found(payload@),
        Ok(None) => TileQueryView::Empty,
        Err(fault) => TileQueryView::StoreError(fault.kind, fault.detail@),
    }
}

/// What the store's answer to the squares call amounts to.
pub open spec fn squares_result_of(outcome: Result<Option<String>, StoreFault>) -> SquaresQueryView {
    match outcome {
        Ok(Some(document)) => SquaresQueryView::Found(document@),
        Ok(None) => SquaresQueryView::Empty,
        Err(fault) => SquaresQueryView::StoreError(fault.kind, fault.detail@),
    }
}

impl StoreFault {
    /// The failure that this fault is reported as.
    pub fn error(&self) -> (error: GatewayError)
        ensures
            error == fault_error(self.kind),
    {
        match self.kind {
            FaultKind::Unavailable => GatewayError::StoreUnavailable,
            FaultKind::QueryFault => GatewayError::StoreQueryFault,
        }
    }
}

impl TileQueryResult {
    /// Classifies the store's answer: bytes are a tile, an explicit null is
    /// absence of data, and a failed call is an error. The payload is kept as
    /// it came.
    pub fn from_store(outcome: Result<Option<Vec<u8>>, StoreFault>) -> (result: TileQueryResult)
        ensures
            result@ == tile_result_of(outcome),
    {
        match outcome {
            Ok(Some(payload)) => TileQueryResult::Found(payload),
            Ok(None) => TileQueryResult::Empty,
            Err(fault) => TileQueryResult::StoreError(fault),
        }
    }

    /// The failure that this result stands for, if any.
    pub fn error(&self) -> (error: Option<GatewayError>)
        ensures
            error == tile_error(self@),
    {
        match self {
            TileQueryResult::Found(_) => None,
            TileQueryResult::Empty => Some(GatewayError::NoTileData),
            TileQueryResult::StoreError(fault) => Some(fault.error()),
        }
    }
}

impl SquaresQueryResult {
    /// Classifies the store's answer to the squares call.
    pub fn from_store(outcome: Result<Option<String>, StoreFault>) -> (result: SquaresQueryResult)
        ensures
            result@ == squares_result_of(outcome),
    {
        match outcome {
            Ok(Some(document)) => SquaresQueryResult::Found(document),
            Ok(None) => SquaresQueryResult::Empty,
            Err(fault) => SquaresQueryResult::StoreError(fault),
        }
    }
}

} // verus!
