use bytes::Bytes;
use tile_gateway::response::{
    encode_method_not_allowed, encode_rejection, encode_squares, encode_tile, Body, CorsPolicy,
    Header, WireResponse,
};
use tile_gateway::router::TileLayer;
use tile_gateway::store::{
    squares_statement, tile_statement, FaultKind, GatewayError, SquaresQueryResult, StoreFault,
    TileQueryResult, MAX_STORE_CONNECTIONS,
};

fn header(name: &str, value: &str) -> Header {
    Header { name: name.to_string(), value: value.to_string() }
}

fn fault(kind: FaultKind, detail: &str) -> StoreFault {
    StoreFault { kind, detail: detail.to_string() }
}

fn tile_headers_any_origin() -> Vec<Header> {
    vec![
        header("Content-Type", "application/x-protobuf"),
        header("Access-Control-Allow-Origin", "*"),
    ]
}

#[test]
fn found_tile_is_200_with_payload_and_headers() {
    let payload = vec![0x1a, 0x02, 0x08, 0x01, 0xff, 0x00];
    let response = encode_tile(TileQueryResult::Found(payload.clone()), &CorsPolicy::AnyOrigin);
    assert_eq!(response.status, 200);
    assert_eq!(response.headers, tile_headers_any_origin());
    assert_eq!(response.body, Body::Binary(Bytes::from(payload)));
    assert_eq!(response.body_len(), 6);
}

#[test]
fn found_tile_body_has_the_payload_length() {
    for n in [0usize, 1, 2, 255, 4096] {
        let payload: Vec<u8> = (0..n).map(|i| (i % 251) as u8).collect();
        let response = encode_tile(TileQueryResult::Found(payload.clone()), &CorsPolicy::AnyOrigin);
        assert_eq!(response.status, 200);
        assert_eq!(response.body_len(), n);
        match response.body {
            Body::Binary(bytes) => assert_eq!(&bytes[..], &payload[..]),
            other => panic!("unexpected body {:?}", other),
        }
    }
}

#[test]
fn empty_tile_is_500_without_body() {
    let response = encode_tile(TileQueryResult::Empty, &CorsPolicy::AnyOrigin);
    assert_eq!(
        response,
        WireResponse { status: 500, headers: tile_headers_any_origin(), body: Body::Empty }
    );
    assert_eq!(response.body_len(), 0);
}

#[test]
fn store_error_is_500_without_body_or_detail() {
    for kind in [FaultKind::Unavailable, FaultKind::QueryFault] {
        let response = encode_tile(
            TileQueryResult::StoreError(fault(kind, "connection refused at 10.0.0.7:5432")),
            &CorsPolicy::AnyOrigin,
        );
        assert_eq!(
            response,
            WireResponse { status: 500, headers: tile_headers_any_origin(), body: Body::Empty }
        );
    }
}

#[test]
fn rejection_is_400_without_body() {
    let response = encode_rejection(&CorsPolicy::AnyOrigin);
    assert_eq!(
        response,
        WireResponse { status: 400, headers: tile_headers_any_origin(), body: Body::Empty }
    );
}

#[test]
fn method_not_allowed_is_405() {
    assert_eq!(
        encode_method_not_allowed(),
        WireResponse { status: 405, headers: vec![], body: Body::Empty }
    );
}

#[test]
fn cors_setting_values() {
    assert_eq!(CorsPolicy::from_setting("*"), CorsPolicy::AnyOrigin);
    assert_eq!(CorsPolicy::from_setting("none"), CorsPolicy::Omit);
    assert_eq!(
        CorsPolicy::from_setting("https://maps.example.org"),
        CorsPolicy::Origin("https://maps.example.org".to_string())
    );
    assert_eq!(CorsPolicy::from_setting(""), CorsPolicy::Origin(String::new()));
    assert_eq!(CorsPolicy::from_setting("None"), CorsPolicy::Origin("None".to_string()));
    assert_eq!(CorsPolicy::default(), CorsPolicy::AnyOrigin);
}

#[test]
fn cors_policy_shapes_tile_headers() {
    let restricted = CorsPolicy::from_setting("https://maps.example.org");
    let response = encode_tile(TileQueryResult::Found(vec![1, 2, 3]), &restricted);
    assert_eq!(
        response.headers,
        vec![
            header("Content-Type", "application/x-protobuf"),
            header("Access-Control-Allow-Origin", "https://maps.example.org"),
        ]
    );
    let omitted = encode_tile(TileQueryResult::Empty, &CorsPolicy::Omit);
    assert_eq!(omitted.headers, vec![header("Content-Type", "application/x-protobuf")]);
    let rejected = encode_rejection(&CorsPolicy::Omit);
    assert_eq!(rejected.headers, vec![header("Content-Type", "application/x-protobuf")]);
}

#[test]
fn squares_document_is_200_json() {
    let document = "{\"type\":\"FeatureCollection\",\"features\":[]}";
    let response = encode_squares(SquaresQueryResult::Found(document.to_string()));
    assert_eq!(
        response,
        WireResponse {
            status: 200,
            headers: vec![header("Content-Type", "application/json")],
            body: Body::Json(document.to_string()),
        }
    );
    assert_eq!(response.body_len(), document.len());
}

#[test]
fn squares_body_length_counts_utf8_bytes() {
    let response = encode_squares(SquaresQueryResult::Found("\"é\"".to_string()));
    assert_eq!(response.body_len(), 4);
}

#[test]
fn squares_failure_is_500_with_generic_text() {
    let response = encode_squares(SquaresQueryResult::StoreError(fault(
        FaultKind::QueryFault,
        "relation \"squares\" does not exist",
    )));
    assert_eq!(
        response,
        WireResponse {
            status: 500,
            headers: vec![header("Content-Type", "text/plain; charset=utf-8")],
            body: Body::Text("Database error".to_string()),
        }
    );
    let other = encode_squares(SquaresQueryResult::StoreError(fault(
        FaultKind::Unavailable,
        "pool timed out",
    )));
    assert_eq!(other, response);
    assert_eq!(response.body_len(), 14);
}

#[test]
fn squares_without_document_is_500_with_message() {
    let response = encode_squares(SquaresQueryResult::Empty);
    assert_eq!(
        response,
        WireResponse {
            status: 500,
            headers: vec![header("Content-Type", "text/plain; charset=utf-8")],
            body: Body::Text("No GeoJSON data returned".to_string()),
        }
    );
}

#[test]
fn error_statuses() {
    assert_eq!(GatewayError::MalformedCoordinate.status(), 400);
    assert_eq!(GatewayError::StoreUnavailable.status(), 500);
    assert_eq!(GatewayError::StoreQueryFault.status(), 500);
    assert_eq!(GatewayError::NoTileData.status(), 500);
}

#[test]
fn query_results_name_their_errors() {
    assert_eq!(TileQueryResult::Found(vec![1]).error(), None);
    assert_eq!(TileQueryResult::Empty.error(), Some(GatewayError::NoTileData));
    assert_eq!(
        TileQueryResult::StoreError(fault(FaultKind::Unavailable, "x")).error(),
        Some(GatewayError::StoreUnavailable)
    );
    assert_eq!(
        TileQueryResult::StoreError(fault(FaultKind::QueryFault, "x")).error(),
        Some(GatewayError::StoreQueryFault)
    );
    assert_eq!(fault(FaultKind::QueryFault, "x").error(), GatewayError::StoreQueryFault);
}

#[test]
fn store_outcomes_are_classified() {
    assert_eq!(TileQueryResult::from_store(Ok(Some(vec![7, 8]))), TileQueryResult::Found(vec![7, 8]));
    assert_eq!(TileQueryResult::from_store(Ok(Some(vec![]))), TileQueryResult::Found(vec![]));
    assert_eq!(TileQueryResult::from_store(Ok(None)), TileQueryResult::Empty);
    assert_eq!(
        TileQueryResult::from_store(Err(fault(FaultKind::Unavailable, "down"))),
        TileQueryResult::StoreError(fault(FaultKind::Unavailable, "down"))
    );
    assert_eq!(
        SquaresQueryResult::from_store(Ok(Some("{}".to_string()))),
        SquaresQueryResult::Found("{}".to_string())
    );
    assert_eq!(SquaresQueryResult::from_store(Ok(None)), SquaresQueryResult::Empty);
    assert_eq!(
        SquaresQueryResult::from_store(Err(fault(FaultKind::QueryFault, "bad"))),
        SquaresQueryResult::StoreError(fault(FaultKind::QueryFault, "bad"))
    );
}

#[test]
fn cloned_response_keeps_its_payload() {
    let response = encode_tile(TileQueryResult::Found(vec![9, 8, 7]), &CorsPolicy::AnyOrigin);
    let copy = response.clone();
    assert_eq!(copy, response);
    assert_eq!(copy.body_len(), 3);
}

#[test]
fn store_statements() {
    assert_eq!(tile_statement(TileLayer::Base), "SELECT get_tile($1, $2, $3) as tile");
    assert_eq!(tile_statement(TileLayer::Points), "SELECT get_tile_points($1, $2, $3) as tile");
    assert_eq!(squares_statement(), "SELECT get_squares_geojson()");
    assert_eq!(MAX_STORE_CONNECTIONS, 5);
}
