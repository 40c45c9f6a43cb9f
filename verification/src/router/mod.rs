//! The router: the registry of calls in flight, the dispatch of requests to a
//! handler, and the one path on which replies leave.
//!
//! A router keeps a record of every call that was dispatched through it. A
//! record holds the call's request id, the reply context it came in on, its
//! cancellation token, and whether the call is still retained, which it is
//! from its dispatch until its terminal outcome is sent or it is let go.
//! The two lookups that the router answers are read off the records: the
//! call that is current for a reply context and a request id is the last one
//! recorded for that pair, and the reply context of a request id is that of
//! the last call recorded for the id, while that call is retained.

pub mod laws;
pub mod router_gen;

use crate::clock::unix_now;
use crate::context::Context;
use crate::router::router_gen::gen_call;
use crate::router::router_gen::CallGen;
use crate::router::router_gen::CallGenView;
use crate::router::router_gen::CallHandler;
use crate::router::router_gen::ResponseNextGen;
use crate::router::router_gen::ResponseNextGenView;
use crate::types::At;
use crate::types::DevString;
use crate::types::DevStringView;
use crate::utils::AbortController;
use crate::utils::AbortFlags;
use crate::utils::AbortSignal;
use std::marker::PhantomData;
use vstd::prelude::*;

verus! {

/// A request as it comes in: a call of an operation, or the wish to abort
/// one. The first field is the request id, which the caller chose.
#[derive(Clone, Debug)]
pub enum RequestEnum {
    Abort(usize, DevString),
    Call(usize, CallGen),
}

/// A request.
#[derive(Clone, Debug)]
pub struct Request(pub RequestEnum);

/// What is said of a call in one reply: a value (any number of times), or
/// one of the three outcomes that end the call.
#[derive(Clone, Debug)]
pub enum ResponseEnum {
    Aborted(DevString),
    Error(DevString),
    Complete(DevString),
    N(ResponseNextGen),
}

/// A reply as it goes out: the id of the request it answers, and what is
/// said of it.
#[derive(Clone, Debug)]
pub struct WireResponse(pub usize, pub ResponseEnum);

/// The mathematical value of a [`Request`].
pub enum RequestView {
    Abort(usize, DevStringView),
    Call(usize, CallGenView),
}

/// The mathematical value of a [`ResponseEnum`].
pub enum ResponseEnumView {
    Aborted(DevStringView),
    Error(DevStringView),
    Complete(DevStringView),
    N(ResponseNextGenView),
}

/// The mathematical value of a [`WireResponse`].
pub struct WireResponseView(pub usize, pub ResponseEnumView);

impl View for RequestEnum {
    type V = RequestView;

    open spec fn view(&self) -> RequestView {
        match self {
            RequestEnum::Abort(id, reason) => RequestView::Abort(*id, reason@),
            RequestEnum::Call(id, call) => RequestView::Call(*id, call@),
        }
    }
}

impl View for Request {
    type V = RequestView;

    open spec fn view(&self) -> RequestView {
        self.0@
    }
}

impl View for ResponseEnum {
    type V = ResponseEnumView;

    open spec fn view(&self) -> ResponseEnumView {
        match self {
            ResponseEnum::Aborted(reason) => ResponseEnumView::Aborted(reason@),
            ResponseEnum::Error(error) => ResponseEnumView::Error(error@),
            ResponseEnum::Complete(notes) => ResponseEnumView::Complete(notes@),
            ResponseEnum::N(value) => ResponseEnumView::N(value@),
        }
    }
}

impl ResponseEnum {
    /// Whether this is one of the three outcomes that end a call.
    pub open spec fn ends_call(&self) -> bool {
        !(self is N)
    }

    /// Reports whether this is one of the three outcomes that end a call.
    pub fn is_terminal(&self) -> (terminal: bool)
        ensures
            terminal == self.ends_call(),
    {
        match self {
            ResponseEnum::N(_) => false,
            _ => true,
        }
    }
}

impl View for WireResponse {
    type V = WireResponseView;

    open spec fn view(&self) -> WireResponseView {
        WireResponseView(self.0, self.1@)
    }
}

impl WireResponse {
    /// The values of the replies handed to a sender, each with its reply
    /// context.
    pub open spec fn views<RCtx>(delivered: Seq<(RCtx, WireResponse)>) -> Seq<
        (RCtx, WireResponseView),
    > {
        delivered.map_values(|reply: (RCtx, WireResponse)| (reply.0, reply.1@))
    }
}

/// A value that an operation replies with, which knows its place in the
/// tagged union of all such values.
pub trait ToResponseNextGen: Sized {
    /// The value, tagged with its operation.
    spec fn response_next_gen(self) -> ResponseNextGen;

    /// Tags the value with its operation.
    fn to_response_next_gen(self) -> (tagged: ResponseNextGen)
        ensures
            tagged == self.response_next_gen(),
    ;
}

/// The transport that carries replies away.
///
/// `delivered` is the sequence of replies handed to the sender so far, each
/// with the reply context it is meant for. An implementation hands each of
/// them on in that order. What is proved of the replies of a router is
/// proved of this sequence, and holds of a transport as far as its
/// implementation keeps to it.
pub trait WireResponseSender<RCtx> {
    /// The replies handed to this sender so far, oldest first. A sender that
    /// does not say what it was handed leaves the sequence open.
    open spec fn delivered(&self) -> Seq<(RCtx, WireResponse)> {
        arbitrary()
    }

    /// Takes one reply for the given reply context.
    fn send_response(&mut self, reply_context: &RCtx, wire_response: WireResponse)
        ensures
            final(self).delivered() == old(self).delivered().push((*reply_context, wire_response)),
    ;
}

/// A sender that keeps the replies it is handed, in order, until they are
/// taken from it.
pub struct Outbox<RCtx> {
    taken: Ghost<Seq<(RCtx, WireResponse)>>,
    pending: Vec<(RCtx, WireResponse)>,
}

impl<RCtx: Copy> Outbox<RCtx> {
    /// The replies that were handed in and not taken yet, oldest first.
    pub closed spec fn pending(&self) -> Seq<(RCtx, WireResponse)> {
        self.pending@
    }

    /// An outbox that was handed nothing yet.
    pub fn new() -> (outbox: Outbox<RCtx>)
        ensures
            outbox.pending() == Seq::<(RCtx, WireResponse)>::empty(),
            outbox.delivered() == Seq::<(RCtx, WireResponse)>::empty(),
    {
        Outbox { taken: Ghost(Seq::empty()), pending: Vec::new() }
    }

    /// Takes the pending replies out, oldest first. What was delivered does
    /// not change by it.
    pub fn take_pending(&mut self) -> (replies: Vec<(RCtx, WireResponse)>)
        ensures
            replies@ == old(self).pending(),
            final(self).pending() == Seq::<(RCtx, WireResponse)>::empty(),
            final(self).delivered() == old(self).delivered(),
    {
        let mut replies: Vec<(RCtx, WireResponse)> = Vec::new();
        std::mem::swap(&mut replies, &mut self.pending);
        proof {
            self.taken@ = self.taken@ + replies@;
        }
        replies
    }
}

impl<RCtx: Copy> WireResponseSender<RCtx> for Outbox<RCtx> {
    closed spec fn delivered(&self) -> Seq<(RCtx, WireResponse)> {
        self.taken@ + self.pending@
    }

    fn send_response(&mut self, reply_context: &RCtx, wire_response: WireResponse) {
        self.pending.push((*reply_context, wire_response));
        assert(self.delivered() =~= old(self).delivered().push((*reply_context, wire_response)));
    }
}

/// What the router records of one call.
pub struct CallView<RCtx> {
    /// The id that the caller gave the request.
    pub request_id: usize,
    /// Where the replies of the call go.
    pub reply_context: RCtx,
    /// The place of the call's cancellation flag.
    pub token: int,
    /// Whether the call is still retained.
    pub retained: bool,
}

/// The state of a router: the calls dispatched so far, oldest first, and the
/// cancellation flags.
pub struct RouterState<RCtx> {
    pub calls: Seq<CallView<RCtx>>,
    pub flags: Seq<bool>,
}

impl<RCtx> RouterState<RCtx> {
    /// The state of a router through which nothing was dispatched.
    pub open spec fn empty() -> RouterState<RCtx> {
        RouterState { calls: Seq::empty(), flags: Seq::empty() }
    }

    /// Whether the call recorded at `at` is the current one for the reply
    /// context and the request id: the last that was recorded for the pair.
    pub open spec fn is_current(self, reply_context: RCtx, request_id: usize, at: int) -> bool {
        &&& 0 <= at < self.calls.len()
        &&& self.calls[at].request_id == request_id
        &&& self.calls[at].reply_context == reply_context
        &&& forall|j: int|
            at < j < self.calls.len() ==> !((#[trigger] self.calls[j]).request_id == request_id
                && self.calls[j].reply_context == reply_context)
    }

    /// The place of the current call for the reply context and the request
    /// id, if a call was ever recorded for the pair.
    pub open spec fn current(self, reply_context: RCtx, request_id: usize) -> Option<int> {
        if exists|at: int| self.is_current(reply_context, request_id, at) {
            Some(choose|at: int| self.is_current(reply_context, request_id, at))
        } else {
            None
        }
    }

    /// Whether the call recorded at `at` is the last that was recorded for
    /// the request id, whatever its reply context.
    pub open spec fn is_latest(self, request_id: usize, at: int) -> bool {
        &&& 0 <= at < self.calls.len()
        &&& self.calls[at].request_id == request_id
        &&& forall|j: int|
            at < j < self.calls.len() ==> (#[trigger] self.calls[j]).request_id != request_id
    }

    /// The place of the last call recorded for the request id, if any.
    pub open spec fn latest(self, request_id: usize) -> Option<int> {
        if exists|at: int| self.is_latest(request_id, at) {
            Some(choose|at: int| self.is_latest(request_id, at))
        } else {
            None
        }
    }

    /// Whether the call recorded at `serial` is still retained.
    pub open spec fn is_retained(self, serial: int) -> bool {
        0 <= serial < self.calls.len() && self.calls[serial].retained
    }

    /// Whether the token of the call recorded at `serial` has been tripped.
    pub open spec fn is_cancelled(self, serial: int) -> bool {
        0 <= serial < self.calls.len() && AbortFlags::is_tripped(
            self.flags,
            self.calls[serial].token,
        )
    }

    /// The state after a call has been registered for the reply context and
    /// the request id: the call is recorded last, retained and with a fresh,
    /// untripped token, and the token of the call that was current for the
    /// pair until now, if there was one, is tripped.
    pub open spec fn registered(self, reply_context: RCtx, request_id: usize) -> RouterState<RCtx> {
        let call = CallView {
            request_id,
            reply_context,
            token: self.flags.len() as int,
            retained: true,
        };
        let flags = self.flags.push(false);
        RouterState {
            calls: self.calls.push(call),
            flags: match self.current(reply_context, request_id) {
                Some(at) => AbortFlags::tripped(flags, self.calls[at].token),
                None => flags,
            },
        }
    }

    /// The state after an abort has been resolved for the reply context and
    /// the request id: the token of the current call for the pair is tripped,
    /// and where there is no such call nothing changes.
    pub open spec fn abort_resolved(self, reply_context: RCtx, request_id: usize) -> RouterState<
        RCtx,
    > {
        match self.current(reply_context, request_id) {
            Some(at) => RouterState {
                flags: AbortFlags::tripped(self.flags, self.calls[at].token),
                ..self
            },
            None => self,
        }
    }

    /// The state after the call recorded at `serial` has been let go.
    pub open spec fn released(self, serial: int) -> RouterState<RCtx> {
        if 0 <= serial < self.calls.len() {
            RouterState {
                calls: self.calls.update(
                    serial,
                    CallView { retained: false, ..self.calls[serial] },
                ),
                ..self
            }
        } else {
            self
        }
    }

    /// The reply context that is looked up for a request id: that of the
    /// last call recorded for the id, while that call is retained.
    pub open spec fn reply_context_of(self, request_id: usize) -> Option<RCtx> {
        match self.latest(request_id) {
            Some(at) => if self.calls[at].retained {
                Some(self.calls[at].reply_context)
            } else {
                None
            },
            None => None,
        }
    }
}

struct CallRecord<RCtx> {
    request_id: usize,
    reply_context: RCtx,
    abort_controller: AbortController,
    retained: bool,
}

impl<RCtx> CallRecord<RCtx> {
    spec fn view(self) -> CallView<RCtx> {
        CallView {
            request_id: self.request_id,
            reply_context: self.reply_context,
            token: self.abort_controller.slot(),
            retained: self.retained,
        }
    }
}

/// The router of one connection or of many: it registers calls, resolves
/// aborts, and forwards replies to its sender.
pub struct ResponseRouter<RCtx, S> {
    calls: Vec<CallRecord<RCtx>>,
    abort_flags: AbortFlags,
    wire_response_sender: S,
}

impl<RCtx, S> View for ResponseRouter<RCtx, S> {
    type V = RouterState<RCtx>;

    closed spec fn view(&self) -> RouterState<RCtx> {
        RouterState {
            calls: Seq::new(self.calls.len() as nat, |i: int| self.calls[i].view()),
            flags: self.abort_flags@,
        }
    }
}

/// The live object of one call in flight: it holds the call's request id,
/// its reply context, its place among the router's records and the owning
/// half of its cancellation token.
#[derive(Debug)]
pub struct ActiveCall<RCtx> {
    request_id: usize,
    reply_context: RCtx,
    serial: usize,
    abort_controller: AbortController,
}

impl<RCtx> ActiveCall<RCtx> {
    /// The id of the request that started the call.
    pub closed spec fn request_id(&self) -> usize {
        self.request_id
    }

    /// Where the replies of the call go.
    pub closed spec fn reply_context(&self) -> RCtx {
        self.reply_context
    }

    /// The place of the call among the router's records.
    pub closed spec fn serial(&self) -> int {
        self.serial as int
    }

    /// The place of the call's cancellation flag.
    pub closed spec fn token(&self) -> int {
        self.abort_controller.slot()
    }

    /// Whether this is the object of the call that a router registers in
    /// state `before` for the reply context and the request id.
    pub open spec fn registered_in(
        &self,
        before: RouterState<RCtx>,
        reply_context: RCtx,
        request_id: usize,
    ) -> bool {
        &&& self.request_id() == request_id
        &&& self.reply_context() == reply_context
        &&& self.serial() == before.calls.len()
        &&& self.token() == before.flags.len()
    }
}

impl<RCtx: Copy + PartialEq, S: WireResponseSender<RCtx>> ResponseRouter<RCtx, S> {
    /// The router's sender.
    pub closed spec fn sender(&self) -> S {
        self.wire_response_sender
    }

    /// Whether `after` is how a router in state `before` is left by the try
    /// to send `reply` for the call recorded at `serial`, and `sent` is what
    /// the try reports: a retained call has the reply delivered last and the
    /// try reports success; for any other call the sender is left as it was
    /// and the try reports that the call has ended.
    pub open spec fn sent_if_retained(
        before: Self,
        after: Self,
        serial: int,
        reply_context: RCtx,
        reply: WireResponse,
        sent: Result<(), DevString>,
    ) -> bool {
        if before@.is_retained(serial) {
            &&& sent is Ok
            &&& after.sender().delivered() == before.sender().delivered().push(
                (reply_context, reply),
            )
        } else {
            &&& after.sender() == before.sender()
            &&& sent is Err
            &&& sent->Err_0@ == call_has_ended()
        }
    }

    /// A router that forwards to `response_sender` and has registered
    /// nothing yet.
    pub fn new(response_sender: S) -> (router: Self)
        ensures
            router@ == RouterState::<RCtx>::empty(),
            router.sender() == response_sender,
    {
        let router = ResponseRouter {
            calls: Vec::new(),
            abort_flags: AbortFlags::new(),
            wire_response_sender: response_sender,
        };
        assert(router@.calls =~= Seq::empty());
        router
    }

    /// The router's sender.
    pub fn wire_response_sender(&self) -> (sender: &S)
        ensures
            *sender == self.sender(),
    {
        &self.wire_response_sender
    }

    /// The router's sender, to take from it what it keeps. The records and
    /// the flags are out of reach through it.
    pub fn wire_response_sender_mut(&mut self) -> (sender: &mut S)
        ensures
            *sender == old(self).sender(),
            final(self).sender() == *final(sender),
            final(self)@ == old(self)@,
    {
        &mut self.wire_response_sender
    }

    /// The cancellation flags, to read tokens with.
    pub fn abort_flags(&self) -> (flags: &AbortFlags)
        ensures
            flags@ == self@.flags,
    {
        &self.abort_flags
    }

    /// Looks up the reply context of a request id: that of the last call
    /// registered under the id, as long as that call is retained.
    pub fn mvp_get_reply_context_from_request_id(&self, request_id: usize) -> (reply_context:
        Option<RCtx>)
        ensures
            reply_context == self@.reply_context_of(request_id),
    {
        let mut at: usize = self.calls.len();
        while at > 0 && self.calls[at - 1].request_id != request_id
            invariant
                at <= self.calls.len(),
                forall|j: int|
                    at <= j < self.calls.len() ==> (#[trigger] self@.calls[j]).request_id
                        != request_id,
            decreases at,
        {
            at -= 1;
        }
        if at > 0 {
            assert(self@.is_latest(request_id, at - 1));
            if self.calls[at - 1].retained {
                Some(self.calls[at - 1].reply_context)
            } else {
                None
            }
        } else {
            assert forall|k: int| !self@.is_latest(request_id, k) by {
                if 0 <= k < self@.calls.len() {
                    assert(self@.calls[k].request_id != request_id);
                }
            }
            None
        }
    }

    /// The place of the current call for the reply context and the request
    /// id.
    fn find_current(&self, reply_context: &RCtx, request_id: usize) -> (at: Option<usize>)
        requires
            vstd::laws_eq::obeys_concrete_eq::<RCtx>(),
        ensures
            match at {
                Some(at) => self@.current(*reply_context, request_id) == Some(at as int) && at
                    < self@.calls.len(),
                None => self@.current(*reply_context, request_id) is None,
            },
    {
        proof {
            reveal(vstd::laws_eq::obeys_concrete_eq);
        }
        let mut at: usize = self.calls.len();
        while at > 0 && !(self.calls[at - 1].request_id == request_id && self.calls[at
            - 1].reply_context == *reply_context)
            invariant
                at <= self.calls.len(),
                vstd::laws_eq::obeys_concrete_eq::<RCtx>(),
                forall|j: int|
                    at <= j < self.calls.len() ==> !((#[trigger] self@.calls[j]).request_id
                        == request_id && self@.calls[j].reply_context == *reply_context),
            decreases at,
        {
            proof {
                reveal(vstd::laws_eq::obeys_concrete_eq);
            }
            at -= 1;
        }
        if at > 0 {
            assert(self@.is_current(*reply_context, request_id, at - 1));
            Some(at - 1)
        } else {
            assert forall|k: int| !self@.is_current(*reply_context, request_id, k) by {
                if 0 <= k < self@.calls.len() {
                    assert(!(self@.calls[k].request_id == request_id && self@.calls[k].reply_context
                        == *reply_context));
                }
            }
            None
        }
    }

    /// Forwards one reply for a request id to the router's sender. This is
    /// the one path on which replies leave the router.
    fn respond(&mut self, request_id: usize, reply_context: &RCtx, response: ResponseEnum)
        ensures
            final(self).sender().delivered() == old(self).sender().delivered().push(
                (*reply_context, WireResponse(request_id, response)),
            ),
            final(self)@ == old(self)@,
    {
        self.wire_response_sender.send_response(reply_context, WireResponse(request_id, response));
    }

    /// Replies to a request id with the terminal outcome `Error`.
    pub fn send_error(&mut self, request_id: usize, reply_context: &RCtx, error: DevString)
        ensures
            final(self).sender().delivered() == old(self).sender().delivered().push(
                (*reply_context, WireResponse(request_id, ResponseEnum::Error(error))),
            ),
            final(self)@ == old(self)@,
    {
        self.respond(request_id, reply_context, ResponseEnum::Error(error));
    }

    /// Registers a call for the reply context and the request id and returns
    /// its live object. The call gets a fresh, untripped token; the token of
    /// the call that was current for the pair until now is tripped.
    pub fn create_responder(&mut self, request_id: usize, reply_context: RCtx) -> (responder:
        ActiveCall<RCtx>)
        requires
            vstd::laws_eq::obeys_concrete_eq::<RCtx>(),
        ensures
            final(self)@ == old(self)@.registered(reply_context, request_id),
            final(self).sender() == old(self).sender(),
            responder.registered_in(old(self)@, reply_context, request_id),
    {
        let existing = self.find_current(&reply_context, request_id);
        let abort_controller = AbortController::new(&mut self.abort_flags);
        if let Some(at) = existing {
            let displaced = self.calls[at].abort_controller;
            displaced.abort(&mut self.abort_flags);
        }
        let serial: usize = self.calls.len();
        self.calls.push(
            CallRecord { request_id, reply_context, abort_controller, retained: true },
        );
        assert(self@.calls =~= old(self)@.registered(reply_context, request_id).calls);
        ActiveCall { request_id, reply_context, serial, abort_controller }
    }

    /// Resolves an abort for the reply context and the request id: trips the
    /// token of the current call for the pair and reports `true`, or reports
    /// `false` where no call was ever registered for the pair. An abort of a
    /// call that is unknown or has ended is no failure.
    pub fn resolve_abort(&mut self, reply_context: &RCtx, request_id: usize) -> (found: bool)
        requires
            vstd::laws_eq::obeys_concrete_eq::<RCtx>(),
        ensures
            found == old(self)@.current(*reply_context, request_id).is_some(),
            final(self)@ == old(self)@.abort_resolved(*reply_context, request_id),
            final(self).sender() == old(self).sender(),
    {
        match self.find_current(reply_context, request_id) {
            Some(at) => {
                let controller = self.calls[at].abort_controller;
                controller.abort(&mut self.abort_flags);
                assert(self@.calls =~= old(self)@.calls);
                true
            },
            None => false,
        }
    }

    /// Makes the handle of the call of `responder`. The time in the handle
    /// is read from the wall clock, once.
    pub fn create_observer<T>(&self, responder: ActiveCall<RCtx>) -> (observer: ObserverImpl<
        T,
        RCtx,
    >)
        ensures
            observer.responder() == responder,
    {
        ObserverImpl::new(responder, At { UNIX_SECS: unix_now() })
    }

    /// Takes one request that came in on the reply context.
    ///
    /// An abort is resolved against the registry: it trips the token of the
    /// call it names, if there is one, and sends nothing. A call is
    /// registered and dispatched to the method of the handler that belongs
    /// to its operation.
    pub fn send_request<H: CallHandler<RCtx, S>>(
        &mut self,
        request: Request,
        reply_context: RCtx,
        ctx: &Context,
        handler: &H,
    )
        requires
            vstd::laws_eq::obeys_concrete_eq::<RCtx>(),
        ensures
            match request.0 {
                RequestEnum::Abort(id, _) => {
                    &&& final(self)@ == old(self)@.abort_resolved(reply_context, id)
                    &&& final(self).sender() == old(self).sender()
                },
                RequestEnum::Call(id, call) => call.dispatched(
                    *handler,
                    *ctx,
                    id,
                    reply_context,
                    *old(self),
                    *final(self),
                ),
            },
    {
        match request.0 {
            RequestEnum::Abort(id, _) => {
                self.resolve_abort(&reply_context, id);
            },
            RequestEnum::Call(id, call) => {
                gen_call(self, ctx, id, call, reply_context, handler);
            },
        }
    }

    /// Reports whether the call of `responder` is still retained.
    pub fn is_retained(&self, responder: &ActiveCall<RCtx>) -> (retained: bool)
        ensures
            retained == self@.is_retained(responder.serial()),
    {
        responder.serial < self.calls.len() && self.calls[responder.serial].retained
    }

    /// Lets the call of `responder` go without a reply: it is no longer
    /// retained, and its reply context is no longer found by its request id.
    pub fn release(&mut self, responder: ActiveCall<RCtx>)
        ensures
            final(self)@ == old(self)@.released(responder.serial()),
            final(self).sender() == old(self).sender(),
    {
        self.let_go(responder.serial);
    }

    /// Marks the call recorded at `serial` as let go.
    fn let_go(&mut self, serial: usize)
        ensures
            final(self)@ == old(self)@.released(serial as int),
            final(self).sender() == old(self).sender(),
    {
        if serial < self.calls.len() {
            let record = &self.calls[serial];
            let closed = CallRecord {
                request_id: record.request_id,
                reply_context: record.reply_context,
                abort_controller: record.abort_controller,
                retained: false,
            };
            self.calls.set(serial, closed);
            assert(self@.calls =~= old(self)@.released(serial as int).calls);
        }
    }
}

impl<RCtx: Copy + PartialEq> ActiveCall<RCtx> {
    /// The id of the request that started the call.
    pub fn mvp_request_id(&self) -> (request_id: usize)
        ensures
            request_id == self.request_id(),
    {
        self.request_id
    }

    /// The observing half of the call's cancellation token.
    pub fn get_abort_signal(&self) -> (signal: AbortSignal)
        ensures
            signal.slot() == self.token(),
    {
        self.abort_controller.signal()
    }

    /// Sends one reply of the call through the router, with the call's own
    /// request id and reply context. An outcome that ends the call is sent
    /// and the call let go. A call that is no longer retained sends nothing,
    /// and the reply is refused.
    pub fn respond<S: WireResponseSender<RCtx>>(
        &self,
        response: ResponseEnum,
        router: &mut ResponseRouter<RCtx, S>,
    ) -> (sent: Result<(), DevString>)
        ensures
            final(router)@ == if response.ends_call() {
                old(router)@.released(self.serial())
            } else {
                old(router)@
            },
            ResponseRouter::sent_if_retained(
                *old(router),
                *final(router),
                self.serial(),
                self.reply_context(),
                WireResponse(self.request_id(), response),
                sent,
            ),
    {
        if self.serial < router.calls.len() && router.calls[self.serial].retained {
            let terminal = response.is_terminal();
            router.respond(self.request_id, &self.reply_context, response);
            if terminal {
                router.let_go(self.serial);
            }
            Ok(())
        } else {
            proof {
                assert(old(router)@.released(self.serial()).calls =~= old(router)@.calls);
            }
            Err(DevString::new("the call has ended"))
        }
    }
}

/// The text with which a reply is refused once its call has ended.
pub open spec fn call_has_ended() -> DevStringView {
    DevStringView::plain("the call has ended"@)
}

/// The text with which [`Emitter::check_aborted`] reports a tripped token.
pub open spec fn observable_was_aborted() -> DevStringView {
    DevStringView::plain("emitter's observable was aborted"@)
}

/// The handle of a call that is given to a handler: it sends values and,
/// once, the outcome that ends the call.
#[derive(Debug)]
pub struct ObserverImpl<T, RCtx> {
    responder: ActiveCall<RCtx>,
    current_time: At,
    _mark: PhantomData<T>,
}

/// The half of a call's handle that sends values, any number of times, and
/// reads the call's cancellation token.
#[derive(Debug)]
pub struct Emitter<T, RCtx> {
    request_id: usize,
    reply_context: RCtx,
    serial: usize,
    signal: AbortSignal,
    current_time: At,
    _mark: PhantomData<T>,
}

/// The half of a call's handle that ends the call. It is used up by doing
/// so.
#[derive(Debug)]
pub struct Completer<T, RCtx> {
    responder: ActiveCall<RCtx>,
    _mark: PhantomData<T>,
}

impl<T, RCtx: Copy + PartialEq> Emitter<T, RCtx> {
    /// The id of the request that started the call.
    pub closed spec fn request_id(&self) -> usize {
        self.request_id
    }

    /// Where the replies of the call go.
    pub closed spec fn reply_context(&self) -> RCtx {
        self.reply_context
    }

    /// The place of the call among the router's records.
    pub closed spec fn serial(&self) -> int {
        self.serial as int
    }

    /// The place of the call's cancellation flag.
    pub closed spec fn token(&self) -> int {
        self.signal.slot()
    }

    /// The time that was taken when the call was dispatched.
    pub closed spec fn current_time(&self) -> At {
        self.current_time
    }

    /// Whether this is an emitter of the call of `responder`, with the given
    /// time.
    pub open spec fn emits_for(&self, responder: ActiveCall<RCtx>, current_time: At) -> bool {
        &&& self.request_id() == responder.request_id()
        &&& self.reply_context() == responder.reply_context()
        &&& self.serial() == responder.serial()
        &&& self.token() == responder.token()
        &&& self.current_time() == current_time
    }

    /// An emitter of the call of `responder`.
    pub fn new(responder: &ActiveCall<RCtx>, current_time: At) -> (emitter: Self)
        ensures
            emitter.emits_for(*responder, current_time),
    {
        Emitter {
            request_id: responder.request_id,
            reply_context: responder.reply_context,
            serial: responder.serial,
            signal: responder.abort_controller.signal(),
            current_time,
            _mark: PhantomData,
        }
    }

    /// The time that handlers take for "now": it was taken once, when the
    /// call was dispatched.
    pub fn get_current_time(&self) -> (at: At)
        ensures
            at == self.current_time(),
    {
        self.current_time
    }

    /// Reads the call's cancellation token in the router's flags: an error
    /// if it has been tripped.
    pub fn check_aborted<S: WireResponseSender<RCtx>>(
        &self,
        router: &ResponseRouter<RCtx, S>,
    ) -> (checked: Result<(), DevString>)
        ensures
            checked is Err <==> AbortFlags::is_tripped(router@.flags, self.token()),
            checked is Err ==> checked->Err_0@ == observable_was_aborted(),
    {
        if self.signal.is_aborted(router.abort_flags()) {
            Err(DevString::new("emitter's observable was aborted"))
        } else {
            Ok(())
        }
    }
}

impl<T, RCtx: Copy + PartialEq> Clone for Emitter<T, RCtx> {
    /// Another emitter of the same call.
    fn clone(&self) -> (emitter: Self)
        ensures
            emitter.request_id() == self.request_id(),
            emitter.reply_context() == self.reply_context(),
            emitter.serial() == self.serial(),
            emitter.token() == self.token(),
            emitter.current_time() == self.current_time(),
    {
        Emitter {
            request_id: self.request_id,
            reply_context: self.reply_context,
            serial: self.serial,
            signal: self.signal,
            current_time: self.current_time,
            _mark: PhantomData,
        }
    }
}

impl<T: ToResponseNextGen, RCtx: Copy + PartialEq> Emitter<T, RCtx> {
    /// Sends one value of the call. After the call has ended nothing is
    /// sent, and the value is refused.
    pub fn next<S: WireResponseSender<RCtx>>(
        &self,
        value: T,
        router: &mut ResponseRouter<RCtx, S>,
    ) -> (sent: Result<(), DevString>)
        ensures
            final(router)@ == old(router)@,
            ResponseRouter::sent_if_retained(
                *old(router),
                *final(router),
                self.serial(),
                self.reply_context(),
                WireResponse(self.request_id(), ResponseEnum::N(value.response_next_gen())),
                sent,
            ),
    {
        if self.serial < router.calls.len() && router.calls[self.serial].retained {
            router.respond(
                self.request_id,
                &self.reply_context,
                ResponseEnum::N(value.to_response_next_gen()),
            );
            Ok(())
        } else {
            Err(DevString::new("the call has ended"))
        }
    }
}

impl<T, RCtx: Copy + PartialEq> Completer<T, RCtx> {
    /// The live object of the call that this completer ends.
    pub closed spec fn responder(&self) -> ActiveCall<RCtx> {
        self.responder
    }

    /// The completer of the call of `responder`.
    pub fn new(responder: ActiveCall<RCtx>) -> (completer: Self)
        ensures
            completer.responder() == responder,
    {
        Completer { responder, _mark: PhantomData }
    }
}

impl<T: ToResponseNextGen, RCtx: Copy + PartialEq> Completer<T, RCtx> {
    /// Ends the call with the outcome `Error`. If the call has ended already
    /// nothing is sent, and the outcome is refused.
    pub fn error<S: WireResponseSender<RCtx>>(
        self,
        error: DevString,
        router: &mut ResponseRouter<RCtx, S>,
    ) -> (sent: Result<(), DevString>)
        ensures
            final(router)@ == old(router)@.released(self.responder().serial()),
            ResponseRouter::sent_if_retained(
                *old(router),
                *final(router),
                self.responder().serial(),
                self.responder().reply_context(),
                WireResponse(self.responder().request_id(), ResponseEnum::Error(error)),
                sent,
            ),
    {
        self.responder.respond(ResponseEnum::Error(error), router)
    }

    /// Ends the call with the outcome `Complete`. If the call has ended
    /// already nothing is sent, and the outcome is refused.
    pub fn complete<S: WireResponseSender<RCtx>>(
        self,
        notes: DevString,
        router: &mut ResponseRouter<RCtx, S>,
    ) -> (sent: Result<(), DevString>)
        ensures
            final(router)@ == old(router)@.released(self.responder().serial()),
            ResponseRouter::sent_if_retained(
                *old(router),
                *final(router),
                self.responder().serial(),
                self.responder().reply_context(),
                WireResponse(self.responder().request_id(), ResponseEnum::Complete(notes)),
                sent,
            ),
    {
        self.responder.respond(ResponseEnum::Complete(notes), router)
    }
}

impl<T, RCtx: Copy + PartialEq> ObserverImpl<T, RCtx> {
    /// The live object of the call that this handle belongs to.
    pub closed spec fn responder(&self) -> ActiveCall<RCtx> {
        self.responder
    }

    /// The time that was taken when the call was dispatched.
    pub closed spec fn current_time(&self) -> At {
        self.current_time
    }

    /// The handle of the call of `responder`.
    pub fn new(responder: ActiveCall<RCtx>, current_time: At) -> (observer: Self)
        ensures
            observer.responder() == responder,
            observer.current_time() == current_time,
    {
        ObserverImpl { responder, current_time, _mark: PhantomData }
    }

    /// The id of the request that started the call.
    pub fn mvp_request_id(&self) -> (request_id: usize)
        ensures
            request_id == self.responder().request_id(),
    {
        self.responder.mvp_request_id()
    }

    /// Splits the handle into the half that sends values and the half that
    /// ends the call.
    pub fn into_parts(self) -> (parts: (Emitter<T, RCtx>, Completer<T, RCtx>))
        ensures
            parts.0.emits_for(self.responder(), self.current_time()),
            parts.1.responder() == self.responder(),
    {
        let emitter = Emitter::new(&self.responder, self.current_time);
        (emitter, Completer { responder: self.responder, _mark: PhantomData })
    }

    /// The observing half of the call's cancellation token.
    pub fn get_abort_signal(&self) -> (signal: AbortSignal)
        ensures
            signal.slot() == self.responder().token(),
    {
        self.responder.get_abort_signal()
    }
}

impl<T: ToResponseNextGen, RCtx: Copy + PartialEq> ObserverImpl<T, RCtx> {
    /// Sends one value of the call. After the call has ended nothing is
    /// sent, and the value is refused.
    pub fn next<S: WireResponseSender<RCtx>>(
        &self,
        value: T,
        router: &mut ResponseRouter<RCtx, S>,
    ) -> (sent: Result<(), DevString>)
        ensures
            final(router)@ == old(router)@,
            ResponseRouter::sent_if_retained(
                *old(router),
                *final(router),
                self.responder().serial(),
                self.responder().reply_context(),
                WireResponse(
                    self.responder().request_id(),
                    ResponseEnum::N(value.response_next_gen()),
                ),
                sent,
            ),
    {
        self.responder.respond(ResponseEnum::N(value.to_response_next_gen()), router)
    }

    /// Ends the call with the outcome `Error`. If the call has ended already
    /// nothing is sent, and the outcome is refused.
    pub fn error<S: WireResponseSender<RCtx>>(
        self,
        error: DevString,
        router: &mut ResponseRouter<RCtx, S>,
    ) -> (sent: Result<(), DevString>)
        ensures
            final(router)@ == old(router)@.released(self.responder().serial()),
            ResponseRouter::sent_if_retained(
                *old(router),
                *final(router),
                self.responder().serial(),
                self.responder().reply_context(),
                WireResponse(self.responder().request_id(), ResponseEnum::Error(error)),
                sent,
            ),
    {
        self.responder.respond(ResponseEnum::Error(error), router)
    }

    /// Ends the call with the outcome `Complete`. If the call has ended
    /// already nothing is sent, and the outcome is refused.
    pub fn complete<S: WireResponseSender<RCtx>>(
        self,
        notes: DevString,
        router: &mut ResponseRouter<RCtx, S>,
    ) -> (sent: Result<(), DevString>)
        ensures
            final(router)@ == old(router)@.released(self.responder().serial()),
            ResponseRouter::sent_if_retained(
                *old(router),
                *final(router),
                self.responder().serial(),
                self.responder().reply_context(),
                WireResponse(self.responder().request_id(), ResponseEnum::Complete(notes)),
                sent,
            ),
    {
        self.responder.respond(ResponseEnum::Complete(notes), router)
    }
}

/// Takes one request of a session without a registry of aborts.
///
/// An abort is answered at once with the terminal outcome `Aborted`, which
/// carries the reason given; no token is touched. A call is registered and
/// dispatched to the method of the handler that belongs to its operation.
pub fn handle_request<RCtx: Copy + PartialEq, S: WireResponseSender<RCtx>, H: CallHandler<RCtx, S>>(
    request: Request,
    ctx: &Context,
    handler: &H,
    reply_context: RCtx,
    router: &mut ResponseRouter<RCtx, S>,
)
    requires
        vstd::laws_eq::obeys_concrete_eq::<RCtx>(),
    ensures
        match request.0 {
            RequestEnum::Abort(id, reason) => {
                &&& final(router)@ == old(router)@
                &&& final(router).sender().delivered() == old(router).sender().delivered().push(
                    (reply_context, WireResponse(id, ResponseEnum::Aborted(reason))),
                )
            },
            RequestEnum::Call(id, call) => call.dispatched(
                *handler,
                *ctx,
                id,
                reply_context,
                *old(router),
                *final(router),
            ),
        },
{
    match request.0 {
        RequestEnum::Abort(id, reason) => {
            router.respond(id, &reply_context, ResponseEnum::Aborted(reason));
        },
        RequestEnum::Call(id, call) => {
            gen_call(router, ctx, id, call, reply_context, handler);
        },
    }
}

} // verus!
