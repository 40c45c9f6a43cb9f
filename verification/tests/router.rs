use call_router::context::Context;
use call_router::pathfinder::Edge;
use call_router::pathfinder::GraphMetrics;
use call_router::pathfinder::GraphMetricsParams;
use call_router::pathfinder::PathResult;
use call_router::pathfinder::Point;
use call_router::pathfinder::ShortestPathParams;
use call_router::router::handle_request;
use call_router::router::router_gen::CallGen;
use call_router::router::router_gen::CallHandler;
use call_router::router::router_gen::ResponseNextGen;
use call_router::router::ObserverImpl;
use call_router::router::Outbox;
use call_router::router::Request;
use call_router::router::RequestEnum;
use call_router::router::ResponseEnum;
use call_router::router::ResponseRouter;
use call_router::router::WireResponse;
use call_router::router::WireResponseSender;
use call_router::types::DevString;
use std::cell::RefCell;

type Router = ResponseRouter<u64, Outbox<u64>>;

/// A handler that notes which method ran with which parameters and keeps the
/// handles it was given.
struct Noting {
    calls: RefCell<Vec<String>>,
    paths: RefCell<Vec<ObserverImpl<PathResult, u64>>>,
    metrics: RefCell<Vec<ObserverImpl<GraphMetrics, u64>>>,
}

impl Noting {
    fn new() -> Noting {
        Noting { calls: RefCell::new(Vec::new()), paths: RefCell::new(Vec::new()), metrics: RefCell::new(Vec::new()) }
    }
}

impl CallHandler<u64, Outbox<u64>> for Noting {
    fn find_shortest_path(
        &self,
        ctx: &Context,
        params: ShortestPathParams,
        tx: ObserverImpl<PathResult, u64>,
        _router: &mut Router,
    ) {
        self.calls.borrow_mut().push(format!(
            "find_shortest_path {} {} {} {} {} {}",
            ctx.session_id,
            tx.mvp_request_id(),
            params.points.len(),
            params.edges.len(),
            params.start_idx,
            params.end_idx
        ));
        self.paths.borrow_mut().push(tx);
    }

    fn compute_graph_metrics(
        &self,
        ctx: &Context,
        params: GraphMetricsParams,
        tx: ObserverImpl<GraphMetrics, u64>,
        _router: &mut Router,
    ) {
        self.calls.borrow_mut().push(format!(
            "compute_graph_metrics {} {} {} {}",
            ctx.session_id,
            tx.mvp_request_id(),
            params.points.len(),
            params.edges.len()
        ));
        self.metrics.borrow_mut().push(tx);
    }
}

fn point(x: f64, y: f64) -> Point {
    Point { x: x.to_bits(), y: y.to_bits() }
}

fn triangle() -> ShortestPathParams {
    ShortestPathParams {
        points: vec![point(0.0, 0.0), point(1.0, 0.0), point(0.0, 1.0)],
        edges: vec![Edge { from: 0, to: 1 }, Edge { from: 1, to: 2 }, Edge { from: 0, to: 2 }],
        start_idx: 0,
        end_idx: 2,
    }
}

fn path_call(id: usize) -> Request {
    Request(RequestEnum::Call(id, CallGen::find_shortest_path(triangle())))
}

fn metrics_call(id: usize) -> Request {
    Request(RequestEnum::Call(
        id,
        CallGen::compute_graph_metrics(GraphMetricsParams {
            points: vec![point(0.0, 0.0), point(3.0, 4.0)],
            edges: vec![Edge { from: 0, to: 1 }],
        }),
    ))
}

fn abort(id: usize, reason: &str) -> Request {
    Request(RequestEnum::Abort(id, DevString::new(reason)))
}

fn session() -> Context {
    Context::created("s1".to_string(), 0, 1_700_000_000)
}

fn pending(router: &mut Router) -> Vec<(u64, WireResponse)> {
    router.wire_response_sender_mut().take_pending()
}

#[test]
fn call_runs_the_method_of_its_operation_with_its_parameters() {
    let mut router = Router::new(Outbox::new());
    let handler = Noting::new();
    router.send_request(path_call(7), 1, &session(), &handler);
    router.send_request(metrics_call(8), 1, &session(), &handler);
    assert_eq!(
        *handler.calls.borrow(),
        vec!["find_shortest_path s1 7 3 3 0 2".to_string(), "compute_graph_metrics s1 8 2 1".to_string()]
    );
    assert!(pending(&mut router).is_empty());
}

#[test]
fn abort_before_any_call_changes_nothing() {
    let mut router = Router::new(Outbox::new());
    let handler = Noting::new();
    router.send_request(abort(7, "too late"), 1, &session(), &handler);
    assert_eq!(router.abort_flags().len(), 0);
    assert!(!router.resolve_abort(&1, 7));
    assert!(handler.calls.borrow().is_empty());
    assert!(pending(&mut router).is_empty());
    assert_eq!(router.mvp_get_reply_context_from_request_id(7), None);
}

#[test]
fn abort_after_call_trips_the_token_of_the_call() {
    let mut router = Router::new(Outbox::new());
    let handler = Noting::new();
    router.send_request(path_call(7), 1, &session(), &handler);
    let tx = handler.paths.borrow_mut().pop().unwrap();
    let signal = tx.get_abort_signal();
    let (emitter, _completer) = tx.into_parts();
    assert!(!signal.is_aborted(router.abort_flags()));
    assert!(emitter.check_aborted(&router).is_ok());
    router.send_request(abort(7, "stop"), 1, &session(), &handler);
    assert!(signal.is_aborted(router.abort_flags()));
    let report = emitter.check_aborted(&router).unwrap_err();
    assert_eq!(report.message, "emitter's observable was aborted");
    assert!(report.records.is_empty() && report.records_dbg.is_empty() && report.cause.is_none());
    assert!(pending(&mut router).is_empty());
}

#[test]
fn abort_on_another_reply_context_does_not_reach_the_call() {
    let mut router = Router::new(Outbox::new());
    let handler = Noting::new();
    router.send_request(path_call(7), 1, &session(), &handler);
    let signal = handler.paths.borrow()[0].get_abort_signal();
    router.send_request(abort(7, "stop"), 2, &session(), &handler);
    assert!(!signal.is_aborted(router.abort_flags()));
    router.send_request(abort(8, "stop"), 1, &session(), &handler);
    assert!(!signal.is_aborted(router.abort_flags()));
}

#[test]
fn second_call_with_the_same_id_trips_the_first() {
    let mut router = Router::new(Outbox::new());
    let handler = Noting::new();
    router.send_request(path_call(7), 1, &session(), &handler);
    router.send_request(metrics_call(7), 1, &session(), &handler);
    let first = handler.paths.borrow_mut().pop().unwrap();
    let second = handler.metrics.borrow_mut().pop().unwrap();
    assert!(first.get_abort_signal().is_aborted(router.abort_flags()));
    assert!(!second.get_abort_signal().is_aborted(router.abort_flags()));
    // nothing keeps the superseded call from replying
    assert!(first.complete(DevString::new("late"), &mut router).is_ok());
    let metrics = GraphMetrics { node_count: 2, edge_count: 1, total_edge_length: 5f64.to_bits(), avg_edge_length: 5f64.to_bits() };
    assert!(second.next(metrics, &mut router).is_ok());
    let sent = pending(&mut router);
    assert_eq!(sent.len(), 2);
    assert!(matches!(&sent[0], (1, WireResponse(7, ResponseEnum::Complete(notes))) if notes.message == "late"));
    assert!(matches!(&sent[1], (1, WireResponse(7, ResponseEnum::N(ResponseNextGen::compute_graph_metrics(m)))) if m.node_count == 2));
}

#[test]
fn same_id_on_two_reply_contexts_are_two_calls() {
    let mut router = Router::new(Outbox::new());
    let handler = Noting::new();
    router.send_request(path_call(7), 1, &session(), &handler);
    router.send_request(path_call(7), 2, &session(), &handler);
    let second = handler.paths.borrow_mut().pop().unwrap();
    let first = handler.paths.borrow_mut().pop().unwrap();
    assert!(!first.get_abort_signal().is_aborted(router.abort_flags()));
    assert!(!second.get_abort_signal().is_aborted(router.abort_flags()));
    // the lookup by id alone finds the reply context registered last
    assert_eq!(router.mvp_get_reply_context_from_request_id(7), Some(2));
    assert!(second.complete(DevString::new("done"), &mut router).is_ok());
    assert_eq!(router.mvp_get_reply_context_from_request_id(7), None);
    assert!(first.complete(DevString::new("done"), &mut router).is_ok());
    let sent = pending(&mut router);
    assert_eq!(sent[0].0, 2);
    assert_eq!(sent[1].0, 1);
}

#[test]
fn values_then_one_terminal_outcome_in_order() {
    let mut router = Router::new(Outbox::new());
    let handler = Noting::new();
    router.send_request(path_call(3), 9, &session(), &handler);
    let tx = handler.paths.borrow_mut().pop().unwrap();
    assert_eq!(tx.mvp_request_id(), 3);
    let (emitter, completer) = tx.into_parts();
    assert_eq!(emitter.get_current_time(), emitter.clone().get_current_time());
    assert!(emitter.get_current_time().UNIX_SECS >= 0);
    let one = PathResult { path: vec![0, 2], distance: 1f64.to_bits() };
    let two = PathResult { path: vec![0, 1, 2], distance: 2.5f64.to_bits() };
    assert!(emitter.next(one, &mut router).is_ok());
    assert!(emitter.clone().next(two, &mut router).is_ok());
    assert!(completer.complete(DevString::new("both"), &mut router).is_ok());
    let sent = pending(&mut router);
    assert_eq!(sent.len(), 3);
    assert!(matches!(&sent[0], (9, WireResponse(3, ResponseEnum::N(ResponseNextGen::find_shortest_path(p)))) if p.path == vec![0, 2] && f64::from_bits(p.distance) == 1.0));
    assert!(matches!(&sent[1], (9, WireResponse(3, ResponseEnum::N(ResponseNextGen::find_shortest_path(p)))) if p.path == vec![0, 1, 2] && f64::from_bits(p.distance) == 2.5));
    assert!(matches!(&sent[2], (9, WireResponse(3, ResponseEnum::Complete(notes))) if notes.message == "both"));
}

#[test]
fn replies_after_the_terminal_outcome_are_refused() {
    let mut router = Router::new(Outbox::new());
    let handler = Noting::new();
    router.send_request(path_call(3), 9, &session(), &handler);
    let tx = handler.paths.borrow_mut().pop().unwrap();
    let (emitter, completer) = tx.into_parts();
    assert!(completer.error(DevString::new("no path"), &mut router).is_ok());
    assert_eq!(pending(&mut router).len(), 1);
    let refusal = emitter.next(PathResult { path: vec![], distance: 0 }, &mut router).unwrap_err();
    assert_eq!(refusal.message, "the call has ended");
    assert!(pending(&mut router).is_empty());
}

#[test]
fn second_terminal_outcome_of_a_call_is_refused() {
    let mut router = Router::new(Outbox::new());
    let first = router.create_responder(3, 9);
    let tx: ObserverImpl<PathResult, u64> = router.create_observer(first);
    assert!(tx.complete(DevString::new("done"), &mut router).is_ok());
    // a handle made again for the record of the same call
    let mut other = Router::new(Outbox::new());
    let again = other.create_responder(3, 9);
    let tx: ObserverImpl<PathResult, u64> = ObserverImpl::new(again, call_router::types::At { UNIX_SECS: 0 });
    let refusal = tx.error(DevString::new("again"), &mut router).unwrap_err();
    assert_eq!(refusal.message, "the call has ended");
    let refusal_sent = pending(&mut router);
    assert_eq!(refusal_sent.len(), 1);
    assert!(matches!(&refusal_sent[0], (9, WireResponse(3, ResponseEnum::Complete(_)))));
}

#[test]
fn reply_context_is_found_while_the_call_is_retained() {
    let mut router = Router::new(Outbox::new());
    assert_eq!(router.mvp_get_reply_context_from_request_id(5), None);
    let responder = router.create_responder(5, 42);
    assert!(router.is_retained(&responder));
    assert_eq!(router.mvp_get_reply_context_from_request_id(5), Some(42));
    assert_eq!(router.mvp_get_reply_context_from_request_id(6), None);
    router.release(responder);
    assert_eq!(router.mvp_get_reply_context_from_request_id(5), None);
}

#[test]
fn send_error_replies_with_the_outcome_error() {
    let mut router = Router::new(Outbox::new());
    router.send_error(11, &4, DevString::new("bad").because(DevString::new("worse")));
    let sent = pending(&mut router);
    assert_eq!(sent.len(), 1);
    assert!(matches!(&sent[0], (4, WireResponse(11, ResponseEnum::Error(e))) if e.message == "bad" && e.cause.as_ref().unwrap().message == "worse"));
    assert_eq!(router.abort_flags().len(), 0);
}

#[test]
fn session_without_registry_answers_an_abort_at_once() {
    let mut router = Router::new(Outbox::new());
    let handler = Noting::new();
    handle_request(path_call(1), &session(), &handler, 6, &mut router);
    let signal = handler.paths.borrow()[0].get_abort_signal();
    handle_request(abort(1, "user left"), &session(), &handler, 6, &mut router);
    assert!(!signal.is_aborted(router.abort_flags()));
    let sent = pending(&mut router);
    assert_eq!(sent.len(), 1);
    assert!(matches!(&sent[0], (6, WireResponse(1, ResponseEnum::Aborted(reason))) if reason.message == "user left"));
    assert_eq!(*handler.calls.borrow(), vec!["find_shortest_path s1 1 3 3 0 2".to_string()]);
}

#[test]
fn outbox_keeps_replies_in_order_until_taken() {
    let mut outbox: Outbox<u64> = Outbox::new();
    outbox.send_response(&1, WireResponse(1, ResponseEnum::Complete(DevString::new("a"))));
    outbox.send_response(&2, WireResponse(2, ResponseEnum::Complete(DevString::new("b"))));
    let taken = outbox.take_pending();
    assert_eq!(taken.len(), 2);
    assert_eq!((taken[0].0, taken[0].1 .0), (1, 1));
    assert_eq!((taken[1].0, taken[1].1 .0), (2, 2));
    assert!(outbox.take_pending().is_empty());
}

/// A sender of the test's own, which counts what it is handed.
struct Counting {
    handed: usize,
    last_id: Option<usize>,
}

impl WireResponseSender<u8> for Counting {
    fn send_response(&mut self, _reply_context: &u8, wire_response: WireResponse) {
        self.handed += 1;
        self.last_id = Some(wire_response.0);
    }
}

#[test]
fn router_forwards_each_reply_to_its_sender_at_once() {
    let mut router: ResponseRouter<u8, Counting> = ResponseRouter::new(Counting { handed: 0, last_id: None });
    let responder = router.create_responder(21, 3);
    assert_eq!(router.wire_response_sender().handed, 0);
    let value = ResponseNextGen::find_shortest_path(PathResult { path: vec![1], distance: 0 });
    assert!(responder.respond(ResponseEnum::N(value), &mut router).is_ok());
    assert_eq!(router.wire_response_sender().handed, 1);
    assert!(router.is_retained(&responder));
    assert!(responder.respond(ResponseEnum::Complete(DevString::new("y")), &mut router).is_ok());
    assert_eq!(router.wire_response_sender().handed, 2);
    assert_eq!(router.wire_response_sender().last_id, Some(21));
    // the outcome has ended the call, whichever handle sent it
    assert!(!router.is_retained(&responder));
    let refusal = responder.respond(ResponseEnum::Error(DevString::new("z")), &mut router).unwrap_err();
    assert_eq!(refusal.message, "the call has ended");
    assert_eq!(router.wire_response_sender().handed, 2);
    assert_eq!(responder.mvp_request_id(), 21);
    assert!(!responder.get_abort_signal().is_aborted(router.abort_flags()));
}

#[test]
fn outcomes_end_a_call_and_values_do_not() {
    assert!(ResponseEnum::Aborted(DevString::new("a")).is_terminal());
    assert!(ResponseEnum::Error(DevString::new("a")).is_terminal());
    assert!(ResponseEnum::Complete(DevString::new("a")).is_terminal());
    let value = ResponseNextGen::find_shortest_path(PathResult { path: vec![], distance: 0 });
    assert!(!ResponseEnum::N(value).is_terminal());
}
