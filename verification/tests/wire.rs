use call_router::json::Json;
use call_router::json::JsonNumber;
use call_router::pathfinder::Edge;
use call_router::pathfinder::GraphMetrics;
use call_router::pathfinder::GraphMetricsParams;
use call_router::pathfinder::PathResult;
use call_router::pathfinder::Point;
use call_router::pathfinder::ShortestPathParams;
use call_router::router::router_gen::CallGen;
use call_router::router::router_gen::ResponseNextGen;
use call_router::router::Request;
use call_router::router::RequestEnum;
use call_router::router::ResponseEnum;
use call_router::router::WireResponse;
use call_router::types::DevString;
use call_router::wire::envelope::RequestParsingTest;

fn object(members: Vec<(&str, Json)>) -> Json {
    Json::Object(members.into_iter().map(|(name, value)| (name.to_string(), value)).collect())
}

fn unsigned(n: u64) -> Json {
    Json::Number(JsonNumber { unsigned: Some(n), signed: None, float_bits: None })
}

fn float(x: f64) -> Json {
    Json::Number(JsonNumber { unsigned: None, signed: None, float_bits: Some(x.to_bits()) })
}

/// A number as a reader of JSON text hands it over: with every reading it has.
fn read_number(n: u64) -> Json {
    Json::Number(JsonNumber {
        unsigned: Some(n),
        signed: Some(n as i64),
        float_bits: Some((n as f64).to_bits()),
    })
}

fn same(a: &Json, b: &Json) -> bool {
    match (a, b) {
        (Json::Null, Json::Null) => true,
        (Json::Bool(x), Json::Bool(y)) => x == y,
        (Json::Number(x), Json::Number(y)) => {
            x.unsigned == y.unsigned && x.signed == y.signed && x.float_bits == y.float_bits
        }
        (Json::Text(x), Json::Text(y)) => x == y,
        (Json::Array(x), Json::Array(y)) => x.len() == y.len() && x.iter().zip(y).all(|(p, q)| same(p, q)),
        (Json::Object(x), Json::Object(y)) => {
            x.len() == y.len() && x.iter().zip(y).all(|(p, q)| p.0 == q.0 && same(&p.1, &q.1))
        }
        _ => false,
    }
}

fn triangle() -> ShortestPathParams {
    ShortestPathParams {
        points: vec![
            Point { x: 0f64.to_bits(), y: 0f64.to_bits() },
            Point { x: 1f64.to_bits(), y: 0f64.to_bits() },
            Point { x: 0f64.to_bits(), y: 1f64.to_bits() },
        ],
        edges: vec![Edge { from: 0, to: 1 }, Edge { from: 1, to: 2 }, Edge { from: 0, to: 2 }],
        start_idx: 0,
        end_idx: 2,
    }
}

#[test]
fn call_is_encoded_as_tagged_object_of_id_and_operation() {
    let request = Request(RequestEnum::Call(
        12,
        CallGen::compute_graph_metrics(GraphMetricsParams {
            points: vec![Point { x: 1.5f64.to_bits(), y: (-2f64).to_bits() }],
            edges: vec![Edge { from: 0, to: 0 }],
        }),
    ));
    let expected = object(vec![(
        "Call",
        Json::Array(vec![
            unsigned(12),
            object(vec![(
                "compute_graph_metrics",
                object(vec![
                    ("points", Json::Array(vec![object(vec![("x", float(1.5)), ("y", float(-2.0))])])),
                    ("edges", Json::Array(vec![object(vec![("from", unsigned(0)), ("to", unsigned(0))])])),
                ]),
            )]),
        ]),
    )]);
    assert!(same(&request.to_json(), &expected));
}

#[test]
fn abort_is_encoded_with_its_reason_as_text() {
    let request = Request(RequestEnum::Abort(7, DevString::new("user left")));
    let expected = object(vec![("Abort", Json::Array(vec![unsigned(7), Json::Text("user left".to_string())]))]);
    assert!(same(&request.to_json(), &expected));
}

#[test]
fn call_comes_back_from_the_wire() {
    let request = Request(RequestEnum::Call(3, CallGen::find_shortest_path(triangle())));
    let back = Request::from_json(&request.to_json()).unwrap();
    match back.0 {
        RequestEnum::Call(3, CallGen::find_shortest_path(params)) => {
            assert_eq!(params.points.len(), 3);
            assert_eq!(f64::from_bits(params.points[1].x), 1.0);
            assert_eq!(f64::from_bits(params.points[2].y), 1.0);
            assert_eq!(params.edges.iter().map(|e| (e.from, e.to)).collect::<Vec<_>>(), vec![(0, 1), (1, 2), (0, 2)]);
            assert_eq!((params.start_idx, params.end_idx), (0, 2));
        }
        other => panic!("decoded as {:?}", other),
    }
}

#[test]
fn abort_comes_back_from_the_wire() {
    let reason = DevString::new("stale")
        .with("attempt".to_string(), unsigned(3))
        .with_dbg("state".to_string(), "Open".to_string())
        .because(DevString::new("timeout").because(DevString::new("socket closed")));
    let request = Request(RequestEnum::Abort(usize::MAX, reason));
    let back = Request::from_json(&request.to_json()).unwrap();
    match back.0 {
        RequestEnum::Abort(id, reason) => {
            assert_eq!(id, usize::MAX);
            assert_eq!(reason.message, "stale");
            assert_eq!(reason.records.len(), 1);
            assert_eq!(reason.records[0].0, "attempt");
            assert!(same(&reason.records[0].1, &unsigned(3)));
            assert_eq!(reason.records_dbg, vec![("state".to_string(), "Open".to_string())]);
            let cause = reason.cause.unwrap();
            assert_eq!(cause.message, "timeout");
            assert_eq!(cause.cause.unwrap().message, "socket closed");
        }
        other => panic!("decoded as {:?}", other),
    }
}

#[test]
fn every_kind_of_reply_comes_back_from_the_wire() {
    let value = WireResponse(
        1,
        ResponseEnum::N(ResponseNextGen::find_shortest_path(PathResult { path: vec![0, 2], distance: 1f64.to_bits() })),
    );
    let expected = Json::Array(vec![
        unsigned(1),
        object(vec![(
            "N",
            object(vec![(
                "find_shortest_path",
                object(vec![("path", Json::Array(vec![unsigned(0), unsigned(2)])), ("distance", float(1.0))]),
            )]),
        )]),
    ]);
    assert!(same(&value.to_json(), &expected));
    match WireResponse::from_json(&value.to_json()).unwrap() {
        WireResponse(1, ResponseEnum::N(ResponseNextGen::find_shortest_path(p))) => {
            assert_eq!(p.path, vec![0, 2]);
            assert_eq!(f64::from_bits(p.distance), 1.0);
        }
        other => panic!("decoded as {:?}", other),
    }
    let metrics = WireResponse(
        2,
        ResponseEnum::N(ResponseNextGen::compute_graph_metrics(GraphMetrics {
            node_count: 2,
            edge_count: 1,
            total_edge_length: 5f64.to_bits(),
            avg_edge_length: 5f64.to_bits(),
        })),
    );
    match WireResponse::from_json(&metrics.to_json()).unwrap() {
        WireResponse(2, ResponseEnum::N(ResponseNextGen::compute_graph_metrics(m))) => {
            assert_eq!((m.node_count, m.edge_count), (2, 1));
            assert_eq!(f64::from_bits(m.total_edge_length), 5.0);
            assert_eq!(f64::from_bits(m.avg_edge_length), 5.0);
        }
        other => panic!("decoded as {:?}", other),
    }
    let error = WireResponse(3, ResponseEnum::Error(DevString::new("No path found")));
    assert!(same(
        &error.to_json(),
        &Json::Array(vec![unsigned(3), object(vec![("Error", Json::Text("No path found".to_string()))])])
    ));
    assert!(matches!(
        WireResponse::from_json(&error.to_json()).unwrap(),
        WireResponse(3, ResponseEnum::Error(e)) if e.message == "No path found" && e.cause.is_none()
    ));
    let complete = WireResponse(4, ResponseEnum::Complete(DevString::new("done")));
    assert!(matches!(
        WireResponse::from_json(&complete.to_json()).unwrap(),
        WireResponse(4, ResponseEnum::Complete(e)) if e.message == "done"
    ));
    let aborted = WireResponse(5, ResponseEnum::Aborted(DevString::new("gone")));
    assert!(matches!(
        WireResponse::from_json(&aborted.to_json()).unwrap(),
        WireResponse(5, ResponseEnum::Aborted(e)) if e.message == "gone"
    ));
}

#[test]
fn text_with_records_is_encoded_as_object_without_empty_members() {
    let text = DevString::new("m").with_dbg("k".to_string(), "v".to_string());
    let expected = object(vec![
        ("message", Json::Text("m".to_string())),
        ("records_dbg", object(vec![("k", Json::Text("v".to_string()))])),
    ]);
    assert!(same(&text.to_json(), &expected));
    let caused = DevString::new("m").because(DevString::new("c"));
    let expected = object(vec![("message", Json::Text("m".to_string())), ("cause", Json::Text("c".to_string()))]);
    assert!(same(&caused.to_json(), &expected));
}

#[test]
fn decoder_takes_members_in_any_order_and_passes_over_unknown_ones() {
    let json = object(vec![(
        "Call",
        Json::Array(vec![
            read_number(9),
            object(vec![(
                "find_shortest_path",
                object(vec![
                    ("end_idx", read_number(1)),
                    ("comment", Json::Text("ignored".to_string())),
                    ("edges", Json::Array(vec![object(vec![("to", read_number(1)), ("from", read_number(0))])])),
                    ("start_idx", read_number(0)),
                    (
                        "points",
                        Json::Array(vec![
                            object(vec![("x", read_number(0)), ("y", read_number(0))]),
                            object(vec![("y", float(0.5)), ("x", read_number(3))]),
                        ]),
                    ),
                ]),
            )]),
        ]),
    )]);
    match Request::from_json(&json).unwrap().0 {
        RequestEnum::Call(9, CallGen::find_shortest_path(params)) => {
            assert_eq!((params.start_idx, params.end_idx), (0, 1));
            assert_eq!((params.edges[0].from, params.edges[0].to), (0, 1));
            assert_eq!(f64::from_bits(params.points[1].x), 3.0);
            assert_eq!(f64::from_bits(params.points[1].y), 0.5);
        }
        other => panic!("decoded as {:?}", other),
    }
}

#[test]
fn text_is_decoded_from_an_object_with_null_cause() {
    let json = object(vec![("cause", Json::Null), ("message", Json::Text("m".to_string()))]);
    let text = DevString::from_json(&json).unwrap();
    assert_eq!(text.message, "m");
    assert!(text.records.is_empty() && text.records_dbg.is_empty() && text.cause.is_none());
}

#[test]
fn malformed_documents_are_no_requests() {
    let good_call = |id: Json, call: Json| object(vec![("Call", Json::Array(vec![id, call]))]);
    let params = triangle().to_json();
    let call = object(vec![("find_shortest_path", params)]);
    assert!(Request::from_json(&good_call(unsigned(1), call.clone())).is_some());
    // not an object, no member, two members
    assert!(Request::from_json(&Json::Null).is_none());
    assert!(Request::from_json(&Json::Array(vec![unsigned(1), call.clone()])).is_none());
    assert!(Request::from_json(&object(vec![])).is_none());
    assert!(Request::from_json(&object(vec![
        ("Call", Json::Array(vec![unsigned(1), call.clone()])),
        ("Abort", Json::Array(vec![unsigned(1), Json::Text("x".to_string())])),
    ]))
    .is_none());
    // unknown tag, wrong length, id that is no unsigned number
    assert!(Request::from_json(&object(vec![("Cancel", Json::Array(vec![unsigned(1), call.clone()]))])).is_none());
    assert!(Request::from_json(&object(vec![("Call", Json::Array(vec![unsigned(1)]))])).is_none());
    assert!(Request::from_json(&object(vec![("Call", Json::Array(vec![unsigned(1), call.clone(), Json::Null]))])).is_none());
    assert!(Request::from_json(&good_call(float(1.0), call.clone())).is_none());
    assert!(Request::from_json(&good_call(Json::Text("1".to_string()), call.clone())).is_none());
    // unknown operation, parameters with a member missing or of the wrong kind
    assert!(Request::from_json(&good_call(unsigned(1), object(vec![("ping", object(vec![]))]))).is_none());
    let missing = object(vec![(
        "find_shortest_path",
        object(vec![("points", Json::Array(vec![])), ("edges", Json::Array(vec![])), ("start_idx", unsigned(0))]),
    )]);
    assert!(Request::from_json(&good_call(unsigned(1), missing)).is_none());
    let wrong = object(vec![(
        "compute_graph_metrics",
        object(vec![("points", Json::Array(vec![Json::Bool(true)])), ("edges", Json::Array(vec![]))]),
    )]);
    assert!(Request::from_json(&good_call(unsigned(1), wrong)).is_none());
    // an abort whose reason is neither a text nor an object with a message
    assert!(Request::from_json(&object(vec![("Abort", Json::Array(vec![unsigned(1), Json::Null]))])).is_none());
    assert!(Request::from_json(&object(vec![("Abort", Json::Array(vec![unsigned(1), object(vec![])]))])).is_none());
    assert!(Request::from_json(&object(vec![(
        "Abort",
        Json::Array(vec![
            unsigned(1),
            object(vec![("message", Json::Text("m".to_string())), ("records_dbg", object(vec![("k", unsigned(1))]))])
        ])
    )]))
    .is_none());
}

#[test]
fn malformed_documents_are_no_replies() {
    assert!(WireResponse::from_json(&Json::Array(vec![unsigned(1)])).is_none());
    assert!(WireResponse::from_json(&object(vec![("N", Json::Null)])).is_none());
    assert!(WireResponse::from_json(&Json::Array(vec![unsigned(1), object(vec![("Done", Json::Text("x".to_string()))])])).is_none());
    assert!(WireResponse::from_json(&Json::Array(vec![unsigned(1), object(vec![("N", object(vec![("find_shortest_path", object(vec![("path", Json::Array(vec![float(0.5)])), ("distance", float(1.0))]))]))])])).is_none());
}

#[test]
fn envelope_of_a_call_is_read_without_its_operation() {
    let json = object(vec![("Call", Json::Array(vec![unsigned(44), object(vec![("anything", Json::Bool(false))])]))]);
    let read = RequestParsingTest::from_json(&json).unwrap();
    assert_eq!(read.Call.0, 44);
    assert!(same(&read.Call.1, &object(vec![("anything", Json::Bool(false))])));
    assert!(RequestParsingTest::from_json(&object(vec![("Abort", Json::Array(vec![unsigned(1), Json::Null]))])).is_none());
}

#[test]
fn lookup_takes_the_first_member_of_a_name() {
    let json = object(vec![("a", unsigned(1)), ("b", unsigned(2)), ("a", unsigned(3))]);
    assert_eq!(json.field("a").unwrap().as_index(), Some(1));
    assert_eq!(json.field("b").unwrap().as_index(), Some(2));
    assert!(json.field("c").is_none());
    assert!(Json::Null.field("a").is_none());
    assert!(same(&json.duplicate(), &json));
    assert!(same(&json.clone(), &json));
    assert_eq!(float(2.0).as_index(), None);
    assert_eq!(unsigned(2).as_float_bits(), None);
    assert_eq!(float(2.0).as_float_bits(), Some(2f64.to_bits()));
    assert_eq!(Json::of_indices(&vec![4, 5]).as_indices(), Some(vec![4, 5]));
    assert_eq!(Json::Array(vec![unsigned(1), Json::Null]).as_indices(), None);
}
