//! The catalog of operations: the tagged union of calls, the tagged union of
//! the values they reply with, and the handler with one method for each.

use crate::context::Context;
use crate::pathfinder::GraphMetrics;
use crate::pathfinder::GraphMetricsParams;
use crate::pathfinder::GraphMetricsParamsView;
use crate::pathfinder::PathResult;
use crate::pathfinder::PathResultView;
use crate::pathfinder::ShortestPathParams;
use crate::pathfinder::ShortestPathParamsView;
use crate::router::ObserverImpl;
use crate::router::ResponseRouter;
use crate::router::ToResponseNextGen;
use crate::router::WireResponseSender;
use vstd::prelude::*;

verus! {

/// A call of one of the operations, with its parameters. On the wire the
/// name of a variant is the name of the operation.
#[allow(non_camel_case_types)]
#[derive(Clone, Debug)]
pub enum CallGen {
    find_shortest_path(ShortestPathParams),
    compute_graph_metrics(GraphMetricsParams),
}

/// A value that one of the operations replies with.
#[allow(non_camel_case_types)]
#[derive(Clone, Debug)]
pub enum ResponseNextGen {
    find_shortest_path(PathResult),
    compute_graph_metrics(GraphMetrics),
}

/// The mathematical value of a [`CallGen`].
#[allow(non_camel_case_types)]
pub enum CallGenView {
    find_shortest_path(ShortestPathParamsView),
    compute_graph_metrics(GraphMetricsParamsView),
}

/// The mathematical value of a [`ResponseNextGen`].
#[allow(non_camel_case_types)]
pub enum ResponseNextGenView {
    find_shortest_path(PathResultView),
    compute_graph_metrics(GraphMetrics),
}

impl View for CallGen {
    type V = CallGenView;

    open spec fn view(&self) -> CallGenView {
        match self {
            CallGen::find_shortest_path(params) => CallGenView::find_shortest_path(params@),
            CallGen::compute_graph_metrics(params) => CallGenView::compute_graph_metrics(params@),
        }
    }
}

impl View for ResponseNextGen {
    type V = ResponseNextGenView;

    open spec fn view(&self) -> ResponseNextGenView {
        match self {
            ResponseNextGen::find_shortest_path(result) => ResponseNextGenView::find_shortest_path(
                result@,
            ),
            ResponseNextGen::compute_graph_metrics(metrics) =>
                ResponseNextGenView::compute_graph_metrics(*metrics),
        }
    }
}

impl ToResponseNextGen for PathResult {
    open spec fn response_next_gen(self) -> ResponseNextGen {
        ResponseNextGen::find_shortest_path(self)
    }

    fn to_response_next_gen(self) -> ResponseNextGen {
        ResponseNextGen::find_shortest_path(self)
    }
}

impl ToResponseNextGen for GraphMetrics {
    open spec fn response_next_gen(self) -> ResponseNextGen {
        ResponseNextGen::compute_graph_metrics(self)
    }

    fn to_response_next_gen(self) -> ResponseNextGen {
        ResponseNextGen::compute_graph_metrics(self)
    }
}

/// The handler of the operations, with one method for each. The embedding
/// application supplies it.
///
/// A method is given the session, the parameters of the call, the handle of
/// the call and the router to send through. What a method does with them is
/// the handler's own: for each operation a relation says how the method may
/// leave the router. A handler that does not state its own relation
/// promises nothing.
pub trait CallHandler<RCtx: Copy + PartialEq, S: WireResponseSender<RCtx>> {
    /// How `find_shortest_path` may leave the router.
    open spec fn find_shortest_path_leaves(
        &self,
        ctx: Context,
        params: ShortestPathParams,
        tx: ObserverImpl<PathResult, RCtx>,
        before: ResponseRouter<RCtx, S>,
        after: ResponseRouter<RCtx, S>,
    ) -> bool {
        true
    }

    /// How `compute_graph_metrics` may leave the router.
    open spec fn compute_graph_metrics_leaves(
        &self,
        ctx: Context,
        params: GraphMetricsParams,
        tx: ObserverImpl<GraphMetrics, RCtx>,
        before: ResponseRouter<RCtx, S>,
        after: ResponseRouter<RCtx, S>,
    ) -> bool {
        true
    }

    /// Finds a shortest path and replies through `tx`.
    fn find_shortest_path(
        &self,
        ctx: &Context,
        params: ShortestPathParams,
        tx: ObserverImpl<PathResult, RCtx>,
        router: &mut ResponseRouter<RCtx, S>,
    )
        ensures
            self.find_shortest_path_leaves(*ctx, params, tx, *old(router), *final(router)),
    ;

    /// Computes the metrics of a graph and replies through `tx`.
    fn compute_graph_metrics(
        &self,
        ctx: &Context,
        params: GraphMetricsParams,
        tx: ObserverImpl<GraphMetrics, RCtx>,
        router: &mut ResponseRouter<RCtx, S>,
    )
        ensures
            self.compute_graph_metrics_leaves(*ctx, params, tx, *old(router), *final(router)),
    ;
}

impl CallGen {
    /// Whether `after` is how the dispatch of this call to `handler` may
    /// leave a router that was in state `before`: the call was registered for
    /// the reply context and the request id, and then the one method of the
    /// handler that belongs to the call's operation ran, on the parameters of
    /// the call as they came and on the handle of the call just registered.
    pub open spec fn dispatched<
        RCtx: Copy + PartialEq,
        S: WireResponseSender<RCtx>,
        H: CallHandler<RCtx, S>,
    >(
        self,
        handler: H,
        ctx: Context,
        id: usize,
        reply_context: RCtx,
        before: ResponseRouter<RCtx, S>,
        after: ResponseRouter<RCtx, S>,
    ) -> bool {
        match self {
            CallGen::find_shortest_path(params) => exists|
                registered: ResponseRouter<RCtx, S>,
                tx: ObserverImpl<PathResult, RCtx>,
            |
                {
                    &&& #[trigger] handler.find_shortest_path_leaves(
                        ctx,
                        params,
                        tx,
                        registered,
                        after,
                    )
                    &&& registered@ == before@.registered(reply_context, id)
                    &&& registered.sender() == before.sender()
                    &&& tx.responder().registered_in(before@, reply_context, id)
                },
            CallGen::compute_graph_metrics(params) => exists|
                registered: ResponseRouter<RCtx, S>,
                tx: ObserverImpl<GraphMetrics, RCtx>,
            |
                {
                    &&& #[trigger] handler.compute_graph_metrics_leaves(
                        ctx,
                        params,
                        tx,
                        registered,
                        after,
                    )
                    &&& registered@ == before@.registered(reply_context, id)
                    &&& registered.sender() == before.sender()
                    &&& tx.responder().registered_in(before@, reply_context, id)
                },
        }
    }
}

/// Dispatches one call: registers it with the router, makes its handle, and
/// runs the method of the handler that belongs to the call's operation.
pub fn gen_call<RCtx: Copy + PartialEq, S: WireResponseSender<RCtx>, H: CallHandler<RCtx, S>>(
    router: &mut ResponseRouter<RCtx, S>,
    ctx: &Context,
    id: usize,
    call: CallGen,
    reply_context: RCtx,
    handler: &H,
)
    requires
        vstd::laws_eq::obeys_concrete_eq::<RCtx>(),
    ensures
        call.dispatched(*handler, *ctx, id, reply_context, *old(router), *final(router)),
{
    let responder = router.create_responder(id, reply_context);
    match call {
        CallGen::find_shortest_path(params) => {
            let tx = router.create_observer::<PathResult>(responder);
            let ghost registered = *router;
            handler.find_shortest_path(ctx, params, tx, router);
            assert(handler.find_shortest_path_leaves(*ctx, params, tx, registered, *router));
        },
        CallGen::compute_graph_metrics(params) => {
            let tx = router.create_observer::<GraphMetrics>(responder);
            let ghost registered = *router;
            handler.compute_graph_metrics(ctx, params, tx, router);
            assert(handler.compute_graph_metrics_leaves(*ctx, params, tx, registered, *router));
        },
    }
}

} // verus!
