use call_router::context::Context;
use call_router::handler::push_decimal;
use call_router::handler::PathfinderHandler;
use call_router::pathfinder::Edge;
use call_router::pathfinder::GraphMetrics;
use call_router::pathfinder::GraphMetricsParams;
use call_router::pathfinder::PathResult;
use call_router::pathfinder::Point;
use call_router::pathfinder::ShortestPathParams;
use call_router::receiver::Receiver;
use call_router::router::router_gen::CallGen;
use call_router::router::router_gen::CallHandler;
use call_router::router::router_gen::ResponseNextGen;
use call_router::router::ObserverImpl;
use call_router::router::Outbox;
use call_router::router::Request;
use call_router::router::RequestEnum;
use call_router::router::ResponseEnum;
use call_router::router::ResponseRouter;
use call_router::router::WireResponse;
use call_router::storage::InMemoryStorage;
use call_router::storage::NoStorage;
use call_router::storage::Storage;
use call_router::types::DevString;
use petgraph::algo::dijkstra;
use petgraph::graph::Graph;
use petgraph::graph::NodeIndex;
use std::cell::RefCell;
use std::rc::Rc;

type Router = ResponseRouter<u64, Outbox<u64>>;

fn length(a: &Point, b: &Point) -> f64 {
    let (dx, dy) = (f64::from_bits(b.x) - f64::from_bits(a.x), f64::from_bits(b.y) - f64::from_bits(a.y));
    (dx.powi(2) + dy.powi(2)).sqrt()
}

/// The search that a driver of the handler runs, on real numbers.
fn search(params: &ShortestPathParams) -> Result<PathResult, String> {
    let mut graph: Graph<(), f64, petgraph::Undirected> = Graph::new_undirected();
    let nodes: Vec<NodeIndex> = (0..params.points.len()).map(|_| graph.add_node(())).collect();
    for edge in &params.edges {
        graph.add_edge(nodes[edge.from], nodes[edge.to], length(&params.points[edge.from], &params.points[edge.to]));
    }
    let (start, end) = (nodes[params.start_idx], nodes[params.end_idx]);
    let found = dijkstra(&graph, start, Some(end), |e| *e.weight());
    let distance = match found.get(&end) {
        Some(distance) => *distance,
        None => return Err("No path found".to_string()),
    };
    let mut path = vec![end];
    let mut current = end;
    while current != start {
        let here = found[&current];
        let before = graph
            .neighbors(current)
            .find(|n| match (found.get(n), graph.find_edge(*n, current)) {
                (Some(d), Some(e)) => (d + graph[e] - here).abs() < 1e-10,
                _ => false,
            })
            .unwrap();
        path.push(before);
        current = before;
    }
    path.reverse();
    Ok(PathResult { path: path.iter().map(|n| n.index()).collect(), distance: distance.to_bits() })
}

/// A handler that searches at once and replies as the library's handler says.
struct Searching {
    seen: RefCell<Vec<String>>,
}

impl CallHandler<u64, Outbox<u64>> for Searching {
    fn find_shortest_path(&self, ctx: &Context, params: ShortestPathParams, tx: ObserverImpl<PathResult, u64>, router: &mut Router) {
        self.seen.borrow_mut().push(PathfinderHandler::<NoStorage>::cache_key(ctx, &params));
        PathfinderHandler::<NoStorage>::reply_computed(search(&params), tx, router);
    }

    fn compute_graph_metrics(&self, _ctx: &Context, params: GraphMetricsParams, tx: ObserverImpl<GraphMetrics, u64>, router: &mut Router) {
        let total: f64 = params.edges.iter().map(|e| length(&params.points[e.from], &params.points[e.to])).sum();
        let avg = if params.edges.is_empty() { 0.0 } else { total / params.edges.len() as f64 };
        let metrics = GraphMetrics {
            node_count: params.points.len(),
            edge_count: params.edges.len(),
            total_edge_length: total.to_bits(),
            avg_edge_length: avg.to_bits(),
        };
        PathfinderHandler::<NoStorage>::reply_metrics(metrics, tx, router);
    }
}

fn point(x: f64, y: f64) -> Point {
    Point { x: x.to_bits(), y: y.to_bits() }
}

fn triangle() -> ShortestPathParams {
    ShortestPathParams {
        points: vec![point(0.0, 0.0), point(1.0, 0.0), point(0.0, 1.0)],
        edges: vec![Edge { from: 0, to: 1 }, Edge { from: 1, to: 2 }, Edge { from: 0, to: 2 }],
        start_idx: 0,
        end_idx: 2,
    }
}

fn cut_off() -> ShortestPathParams {
    ShortestPathParams {
        points: vec![point(0.0, 0.0), point(1.0, 0.0), point(10.0, 10.0)],
        edges: vec![Edge { from: 0, to: 1 }],
        start_idx: 0,
        end_idx: 2,
    }
}

fn session() -> Context {
    Context::created("test-session".to_string(), 1, 1_700_000_000)
}

#[test]
fn shortest_path_in_a_triangle_is_one_value_then_complete() {
    let mut router = Router::new(Outbox::new());
    let handler = Searching { seen: RefCell::new(Vec::new()) };
    router.send_request(Request(RequestEnum::Call(1, CallGen::find_shortest_path(triangle()))), 5, &session(), &handler);
    let sent = router.wire_response_sender_mut().take_pending();
    assert_eq!(sent.len(), 2);
    match &sent[0] {
        (5, WireResponse(1, ResponseEnum::N(ResponseNextGen::find_shortest_path(p)))) => {
            assert_eq!(p.path, vec![0, 2]);
            assert!((f64::from_bits(p.distance) - 1.0).abs() < 1e-10);
        }
        other => panic!("first reply is {:?}", other),
    }
    assert!(matches!(&sent[1], (5, WireResponse(1, ResponseEnum::Complete(notes))) if notes.message == "Path found successfully"));
    assert_eq!(*handler.seen.borrow(), vec!["path:test-session:0:2".to_string()]);
    assert_eq!(router.mvp_get_reply_context_from_request_id(1), None);
}

#[test]
fn shortest_path_to_a_point_cut_off_is_an_error_and_no_value() {
    let mut router = Router::new(Outbox::new());
    let handler = Searching { seen: RefCell::new(Vec::new()) };
    router.send_request(Request(RequestEnum::Call(1, CallGen::find_shortest_path(cut_off()))), 5, &session(), &handler);
    let sent = router.wire_response_sender_mut().take_pending();
    assert_eq!(sent.len(), 1);
    assert!(matches!(&sent[0], (5, WireResponse(1, ResponseEnum::Error(e))) if e.message == "No path found" && e.cause.is_none()));
}

#[test]
fn metrics_of_a_graph_are_one_value_then_complete() {
    let mut router = Router::new(Outbox::new());
    let handler = Searching { seen: RefCell::new(Vec::new()) };
    let params = GraphMetricsParams { points: vec![point(0.0, 0.0), point(3.0, 4.0)], edges: vec![Edge { from: 0, to: 1 }] };
    router.send_request(Request(RequestEnum::Call(2, CallGen::compute_graph_metrics(params))), 5, &session(), &handler);
    let sent = router.wire_response_sender_mut().take_pending();
    assert_eq!(sent.len(), 2);
    match &sent[0] {
        (5, WireResponse(2, ResponseEnum::N(ResponseNextGen::compute_graph_metrics(m)))) => {
            assert_eq!((m.node_count, m.edge_count), (2, 1));
            assert_eq!(f64::from_bits(m.total_edge_length), 5.0);
            assert_eq!(f64::from_bits(m.avg_edge_length), 5.0);
        }
        other => panic!("first reply is {:?}", other),
    }
    assert!(matches!(&sent[1], (5, WireResponse(2, ResponseEnum::Complete(notes))) if notes.message == "Metrics computed successfully"));
}

#[test]
fn test_handler_without_storage() {
    let mut handler: PathfinderHandler<InMemoryStorage> = PathfinderHandler::new(None);
    let params = triangle();
    let ctx = session();
    assert_eq!(handler.cached_bytes(&ctx, &params), None);
    handler.remember(&ctx, &params, vec![1, 2, 3]);
    assert_eq!(handler.cached_bytes(&ctx, &params), None);
    let mut router = Router::new(Outbox::new());
    let responder = router.create_responder(1, 0);
    let tx: ObserverImpl<PathResult, u64> = router.create_observer(responder);
    // this should not panic
    PathfinderHandler::<InMemoryStorage>::reply_computed(search(&params), tx, &mut router);
    assert_eq!(router.wire_response_sender_mut().take_pending().len(), 2);
}

#[test]
fn handler_with_storage_caches_under_the_key_of_the_call() {
    let mut handler = PathfinderHandler::new(Some(InMemoryStorage::new()));
    let params = triangle();
    let ctx = session();
    assert_eq!(PathfinderHandler::<InMemoryStorage>::cache_key(&ctx, &params), "path:test-session:0:2");
    assert_eq!(handler.cached_bytes(&ctx, &params), None);
    handler.remember(&ctx, &params, vec![7, 7]);
    assert_eq!(handler.cached_bytes(&ctx, &params), Some(vec![7, 7]));
    assert_eq!(handler.cached_bytes(&ctx, &cut_off()), Some(vec![7, 7]));
    let mut elsewhere = triangle();
    elsewhere.end_idx = 1;
    assert_eq!(handler.cached_bytes(&ctx, &elsewhere), None);
    let other_session = Context::created("other".to_string(), 1, 0);
    assert_eq!(handler.cached_bytes(&other_session, &params), None);
}

#[test]
fn cached_path_is_one_value_then_complete() {
    let mut router = Router::new(Outbox::new());
    let responder = router.create_responder(8, 3);
    let tx: ObserverImpl<PathResult, u64> = router.create_observer(responder);
    PathfinderHandler::<NoStorage>::reply_cached(PathResult { path: vec![0, 2], distance: 1f64.to_bits() }, tx, &mut router);
    let sent = router.wire_response_sender_mut().take_pending();
    assert_eq!(sent.len(), 2);
    assert!(matches!(&sent[0], (3, WireResponse(8, ResponseEnum::N(ResponseNextGen::find_shortest_path(p)))) if p.path == vec![0, 2]));
    assert!(matches!(&sent[1], (3, WireResponse(8, ResponseEnum::Complete(notes))) if notes.message == "Path found (cached)"));
}

#[test]
fn handler_gives_no_reply_to_a_call_that_has_ended() {
    let mut router = Router::new(Outbox::new());
    let responder = router.create_responder(8, 3);
    let tx: ObserverImpl<PathResult, u64> = router.create_observer(responder);
    let (_emitter, completer) = tx.into_parts();
    assert!(completer.error(DevString::new("given up"), &mut router).is_ok());
    assert_eq!(router.wire_response_sender_mut().take_pending().len(), 1);
    let mut other = Router::new(Outbox::new());
    let again = other.create_responder(8, 3);
    let tx: ObserverImpl<PathResult, u64> = other.create_observer(again);
    PathfinderHandler::<NoStorage>::reply_computed(Ok(PathResult { path: vec![0], distance: 0 }), tx, &mut router);
    assert!(router.wire_response_sender_mut().take_pending().is_empty());
}

#[test]
fn numbers_are_written_in_decimal() {
    for (n, text) in [(0usize, "0"), (7, "7"), (10, "10"), (909, "909"), (1234567890, "1234567890")] {
        let mut out = String::from("n=");
        push_decimal(&mut out, n);
        assert_eq!(out, format!("n={}", text));
    }
    let mut out = String::new();
    push_decimal(&mut out, usize::MAX);
    assert_eq!(out, usize::MAX.to_string());
}

#[test]
fn receiver_gives_each_call_a_context_of_its_session() {
    struct Telling {
        seen: Rc<RefCell<Vec<(String, usize, Option<String>)>>>,
    }
    impl CallHandler<u64, Outbox<u64>> for Telling {
        fn find_shortest_path(&self, ctx: &Context, _params: ShortestPathParams, _tx: ObserverImpl<PathResult, u64>, _router: &mut Router) {
            self.seen.borrow_mut().push((ctx.session_id.clone(), ctx.request_id, ctx.user_id.clone()));
        }
        fn compute_graph_metrics(&self, ctx: &Context, _params: GraphMetricsParams, _tx: ObserverImpl<GraphMetrics, u64>, _router: &mut Router) {
            self.seen.borrow_mut().push((ctx.session_id.clone(), ctx.request_id, ctx.user_id.clone()));
        }
    }
    let mut store = InMemoryStorage::new();
    store.set("k", vec![9]);
    let seen = Rc::new(RefCell::new(Vec::new()));
    let receiver = Receiver::new("ws-1".to_string(), Telling { seen: seen.clone() }, Some(store));
    assert_eq!(receiver.storage().unwrap().get("k"), Some(vec![9]));
    let mut router = Router::new(Outbox::new());
    receiver.handle_request(Request(RequestEnum::Call(31, CallGen::find_shortest_path(triangle()))), 2, &mut router);
    receiver.handle_request(Request(RequestEnum::Abort(31, DevString::new("bye"))), 2, &mut router);
    let sent = router.wire_response_sender_mut().take_pending();
    assert_eq!(sent.len(), 1);
    assert!(matches!(&sent[0], (2, WireResponse(31, ResponseEnum::Aborted(reason))) if reason.message == "bye"));
    assert_eq!(router.mvp_get_reply_context_from_request_id(31), Some(2));
    receiver.handle_request(Request(RequestEnum::Call(32, CallGen::compute_graph_metrics(GraphMetricsParams { points: vec![], edges: vec![] }))), 2, &mut router);
    assert_eq!(*seen.borrow(), vec![("ws-1".to_string(), 31, None), ("ws-1".to_string(), 32, None)]);
    let none: Receiver<Telling, NoStorage> = Receiver::new("ws-2".to_string(), Telling { seen: seen.clone() }, None);
    assert!(none.storage().is_none());
}
