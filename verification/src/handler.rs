//! The handler of the two graph operations, as far as it decides: under
//! which key it caches a path, and which replies it gives to what was found.
//!
//! Finding the path and computing the metrics work on real numbers and are
//! done by whoever drives this handler; so is turning a cached value into
//! bytes and back.

use crate::context::Context;
use crate::pathfinder::GraphMetrics;
use crate::pathfinder::PathResult;
use crate::pathfinder::PathResultView;
use crate::pathfinder::ShortestPathParams;
use crate::router::ObserverImpl;
use crate::router::router_gen::ResponseNextGenView;
use crate::router::ResponseEnumView;
use crate::router::ResponseRouter;
use crate::router::WireResponse;
use crate::router::WireResponseView;
use crate::router::WireResponseSender;
use crate::storage::Storage;
use crate::types::DevString;
use crate::types::DevStringView;
use vstd::prelude::*;
use vstd::string::StringExecFns;

verus! {

/// The decimal digit of a number below ten.
pub open spec fn digit(d: nat) -> char {
    if d == 0 {
        '0'
    } else if d == 1 {
        '1'
    } else if d == 2 {
        '2'
    } else if d == 3 {
        '3'
    } else if d == 4 {
        '4'
    } else if d == 5 {
        '5'
    } else if d == 6 {
        '6'
    } else if d == 7 {
        '7'
    } else if d == 8 {
        '8'
    } else {
        '9'
    }
}

/// A number in decimal digits, without leading zeros.
pub open spec fn decimal(n: nat) -> Seq<char>
    decreases n,
{
    if n < 10 {
        seq![digit(n)]
    } else {
        decimal(n / 10).push(digit(n % 10))
    }
}

/// Appends a number in decimal digits to a text.
pub fn push_decimal(text: &mut String, n: usize)
    ensures
        final(text)@ == old(text)@ + decimal(n as nat),
    decreases n,
{
    if n >= 10 {
        push_decimal(text, n / 10);
    }
    let d: usize = n % 10;
    proof {
        reveal_strlit("0");
        reveal_strlit("1");
        reveal_strlit("2");
        reveal_strlit("3");
        reveal_strlit("4");
        reveal_strlit("5");
        reveal_strlit("6");
        reveal_strlit("7");
        reveal_strlit("8");
        reveal_strlit("9");
    }
    let last = if d == 0 {
        "0"
    } else if d == 1 {
        "1"
    } else if d == 2 {
        "2"
    } else if d == 3 {
        "3"
    } else if d == 4 {
        "4"
    } else if d == 5 {
        "5"
    } else if d == 6 {
        "6"
    } else if d == 7 {
        "7"
    } else if d == 8 {
        "8"
    } else {
        "9"
    };
    assert(last@ =~= seq![digit(d as nat)]);
    text.append(last);
    assert(text@ =~= old(text)@ + decimal(n as nat));
}

/// The text with which a path found in the cache is completed.
pub open spec fn found_cached() -> DevStringView {
    DevStringView::plain("Path found (cached)"@)
}

/// The text with which a path just found is completed.
pub open spec fn found_successfully() -> DevStringView {
    DevStringView::plain("Path found successfully"@)
}

/// The text with which the metrics of a graph are completed.
pub open spec fn metrics_computed() -> DevStringView {
    DevStringView::plain("Metrics computed successfully"@)
}

/// The handler of the graph operations, with the store it caches paths in, if
/// it has one.
pub struct PathfinderHandler<St: Storage> {
    storage: Option<St>,
}

impl<St: Storage> PathfinderHandler<St> {
    /// The handler's store.
    pub closed spec fn store(&self) -> Option<St> {
        self.storage
    }

    /// The key under which the path of a call is cached: `path:`, the
    /// session's name, the start and the end in decimal, with colons between.
    pub open spec fn cache_key_of(session_id: Seq<char>, start_idx: usize, end_idx: usize) -> Seq<
        char,
    > {
        "path:"@ + session_id + ":"@ + decimal(start_idx as nat) + ":"@ + decimal(end_idx as nat)
    }

    /// A handler with the given store, or with none.
    pub fn new(storage: Option<St>) -> (handler: Self)
        ensures
            handler.store() == storage,
    {
        PathfinderHandler { storage }
    }

    /// The key under which the path of a call is cached.
    pub fn cache_key(ctx: &Context, params: &ShortestPathParams) -> (key: String)
        ensures
            key@ == Self::cache_key_of(ctx.session_id@, params.start_idx, params.end_idx),
    {
        let mut key = String::from_str("path:");
        key.append(ctx.session_id.as_str());
        key.append(":");
        push_decimal(&mut key, params.start_idx);
        key.append(":");
        push_decimal(&mut key, params.end_idx);
        key
    }

    /// What the handler's store keeps under a key: nothing where the handler
    /// has no store.
    pub open spec fn kept_under(&self, key: Seq<char>) -> Option<Seq<u8>> {
        match self.store() {
            Some(storage) => if storage.kept().contains_key(key) {
                Some(storage.kept()[key])
            } else {
                None
            },
            None => None,
        }
    }

    /// What the store keeps for the path of a call: nothing where the
    /// handler has no store.
    pub fn cached_bytes(&self, ctx: &Context, params: &ShortestPathParams) -> (bytes: Option<
        Vec<u8>,
    >)
        ensures
            match bytes {
                Some(bytes) => self.kept_under(
                    Self::cache_key_of(ctx.session_id@, params.start_idx, params.end_idx),
                ) == Some(bytes@),
                None => self.kept_under(
                    Self::cache_key_of(ctx.session_id@, params.start_idx, params.end_idx),
                ) is None,
            },
    {
        match &self.storage {
            Some(storage) => {
                let key = Self::cache_key(ctx, params);
                storage.get(key.as_str())
            },
            None => None,
        }
    }

    /// Offers the bytes of a path just found to the store, under the key of
    /// the call: if the store keeps anything under the key afterwards, it is
    /// these bytes. A handler without a store stays without.
    pub fn remember(&mut self, ctx: &Context, params: &ShortestPathParams, bytes: Vec<u8>)
        ensures
            old(self).store() is None <==> final(self).store() is None,
            final(self).kept_under(
                Self::cache_key_of(ctx.session_id@, params.start_idx, params.end_idx),
            ) matches Some(kept) ==> kept == bytes@,
    {
        let key = Self::cache_key(ctx, params);
        match &mut self.storage {
            Some(storage) => {
                storage.set(key.as_str(), bytes);
            },
            None => {},
        }
    }

    /// Replies with a path that was found in the cache: the path, then the
    /// outcome `Complete`. A call that has ended gets no reply.
    pub fn reply_cached<RCtx: Copy + PartialEq, S: WireResponseSender<RCtx>>(
        cached: PathResult,
        tx: ObserverImpl<PathResult, RCtx>,
        router: &mut ResponseRouter<RCtx, S>,
    )
        ensures
            final(router)@ == old(router)@.released(tx.responder().serial()),
            WireResponse::views(final(router).sender().delivered()) == WireResponse::views(
                old(router).sender().delivered(),
            ) + Self::replies_to_path(
                old(router)@.is_retained(tx.responder().serial()),
                tx.responder().reply_context(),
                tx.responder().request_id(),
                Ok(cached@),
                found_cached(),
            ),
    {
        let _ = tx.next(cached, router);
        let _ = tx.complete(DevString::new("Path found (cached)"), router);
        assert(WireResponse::views(final(router).sender().delivered()) =~= WireResponse::views(
            old(router).sender().delivered(),
        ) + Self::replies_to_path(
            old(router)@.is_retained(tx.responder().serial()),
            tx.responder().reply_context(),
            tx.responder().request_id(),
            Ok(cached@),
            found_cached(),
        ));
    }

    /// Replies with what the search for a path came to: a path is sent and
    /// the call completed; a failure ends the call with the outcome `Error`,
    /// which carries the failure's text, and no value is sent. A call that
    /// has ended gets no reply.
    pub fn reply_computed<RCtx: Copy + PartialEq, S: WireResponseSender<RCtx>>(
        outcome: Result<PathResult, String>,
        tx: ObserverImpl<PathResult, RCtx>,
        router: &mut ResponseRouter<RCtx, S>,
    )
        ensures
            final(router)@ == old(router)@.released(tx.responder().serial()),
            WireResponse::views(final(router).sender().delivered()) == WireResponse::views(
                old(router).sender().delivered(),
            ) + Self::replies_to_path(
                old(router)@.is_retained(tx.responder().serial()),
                tx.responder().reply_context(),
                tx.responder().request_id(),
                match outcome {
                    Ok(path) => Ok(path@),
                    Err(failure) => Err(failure@),
                },
                found_successfully(),
            ),
    {
        match outcome {
            Ok(path) => {
                let _ = tx.next(path, router);
                let _ = tx.complete(DevString::new("Path found successfully"), router);
            },
            Err(failure) => {
                let _ = tx.error(DevString::new(failure.as_str()), router);
            },
        }
        assert(WireResponse::views(final(router).sender().delivered()) =~= WireResponse::views(
            old(router).sender().delivered(),
        ) + Self::replies_to_path(
            old(router)@.is_retained(tx.responder().serial()),
            tx.responder().reply_context(),
            tx.responder().request_id(),
            match outcome {
                Ok(path) => Ok(path@),
                Err(failure) => Err(failure@),
            },
            found_successfully(),
        ));
    }

    /// Replies with the metrics of a graph: the metrics, then the outcome
    /// `Complete`. A call that has ended gets no reply.
    pub fn reply_metrics<RCtx: Copy + PartialEq, S: WireResponseSender<RCtx>>(
        metrics: GraphMetrics,
        tx: ObserverImpl<GraphMetrics, RCtx>,
        router: &mut ResponseRouter<RCtx, S>,
    )
        ensures
            final(router)@ == old(router)@.released(tx.responder().serial()),
            WireResponse::views(final(router).sender().delivered()) == WireResponse::views(
                old(router).sender().delivered(),
            ) + Self::replies_to_metrics(
                old(router)@.is_retained(tx.responder().serial()),
                tx.responder().reply_context(),
                tx.responder().request_id(),
                metrics,
            ),
    {
        let _ = tx.next(metrics, router);
        let _ = tx.complete(DevString::new("Metrics computed successfully"), router);
        assert(WireResponse::views(final(router).sender().delivered()) =~= WireResponse::views(
            old(router).sender().delivered(),
        ) + Self::replies_to_metrics(
            old(router)@.is_retained(tx.responder().serial()),
            tx.responder().reply_context(),
            tx.responder().request_id(),
            metrics,
        ));
    }

    /// The replies to a call for a path: none if the call has ended; else
    /// the path and then the outcome `Complete` with `notes`, or for a
    /// failure the outcome `Error` alone.
    pub open spec fn replies_to_path<RCtx>(
        retained: bool,
        reply_context: RCtx,
        request_id: usize,
        outcome: Result<PathResultView, Seq<char>>,
        notes: DevStringView,
    ) -> Seq<(RCtx, WireResponseView)> {
        if !retained {
            Seq::empty()
        } else {
            match outcome {
                Ok(path) => seq![
                    (
                        reply_context,
                        WireResponseView(
                            request_id,
                            ResponseEnumView::N(ResponseNextGenView::find_shortest_path(path)),
                        ),
                    ),
                    (reply_context, WireResponseView(request_id, ResponseEnumView::Complete(notes))),
                ],
                Err(failure) => seq![
                    (
                        reply_context,
                        WireResponseView(
                            request_id,
                            ResponseEnumView::Error(DevStringView::plain(failure)),
                        ),
                    ),
                ],
            }
        }
    }

    /// The replies to a call for the metrics of a graph: none if the call
    /// has ended, else the metrics and then the outcome `Complete`.
    pub open spec fn replies_to_metrics<RCtx>(
        retained: bool,
        reply_context: RCtx,
        request_id: usize,
        metrics: GraphMetrics,
    ) -> Seq<(RCtx, WireResponseView)> {
        if !retained {
            Seq::empty()
        } else {
            seq![
                (
                    reply_context,
                    WireResponseView(
                        request_id,
                        ResponseEnumView::N(ResponseNextGenView::compute_graph_metrics(metrics)),
                    ),
                ),
                (
                    reply_context,
                    WireResponseView(request_id, ResponseEnumView::Complete(metrics_computed())),
                ),
            ]
        }
    }
}

} // verus!
