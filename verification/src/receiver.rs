//! The receiver of one session: it gives each request of the session a
//! context and hands it to the session's handler.

use crate::context::Context;
use crate::router::handle_request;
use crate::router::router_gen::CallHandler;
use crate::router::Request;
use crate::router::RequestEnum;
use crate::router::ResponseEnum;
use crate::router::ResponseRouter;
use crate::router::WireResponse;
use crate::router::WireResponseSender;
use crate::storage::Storage;
use vstd::prelude::*;

verus! {

/// The receiver of the requests of one session or connection.
pub struct Receiver<H, St: Storage> {
    session_id: String,
    handler: H,
    storage: Option<St>,
}

impl<H, St: Storage> Receiver<H, St> {
    /// The session's name.
    pub closed spec fn session_id(&self) -> String {
        self.session_id
    }

    /// The session's handler.
    pub closed spec fn handler(&self) -> H {
        self.handler
    }

    /// The session's store.
    pub closed spec fn store(&self) -> Option<St> {
        self.storage
    }

    /// Whether `ctx` is a context of this session for the request id, with
    /// no user.
    pub open spec fn gives_context(&self, ctx: Context, request_id: usize) -> bool {
        &&& ctx.session_id == self.session_id()
        &&& ctx.request_id == request_id
        &&& ctx.user_id is None
    }

    /// A receiver for the session named `session_id`.
    pub fn new(session_id: String, handler: H, storage: Option<St>) -> (receiver: Self)
        ensures
            receiver.session_id() == session_id,
            receiver.handler() == handler,
            receiver.store() == storage,
    {
        Receiver { session_id, handler, storage }
    }

    /// The session's store, if it has one.
    pub fn storage(&self) -> (storage: Option<&St>)
        ensures
            match storage {
                Some(storage) => self.store() == Some(*storage),
                None => self.store() is None,
            },
    {
        self.storage.as_ref()
    }

    /// Takes one request of the session through the router.
    ///
    /// An abort is answered at once with the terminal outcome `Aborted`,
    /// which carries the reason given. A call is registered with the router
    /// and dispatched to the session's handler, with a context of this
    /// session made now for the request.
    pub fn handle_request<RCtx: Copy + PartialEq, S: WireResponseSender<RCtx>>(
        &self,
        request: Request,
        reply_context: RCtx,
        router: &mut ResponseRouter<RCtx, S>,
    ) where H: CallHandler<RCtx, S>
        requires
            vstd::laws_eq::obeys_concrete_eq::<RCtx>(),
        ensures
            match request.0 {
                RequestEnum::Abort(id, reason) => {
                    &&& final(router)@ == old(router)@
                    &&& final(router).sender().delivered() == old(
                        router,
                    ).sender().delivered().push(
                        (reply_context, WireResponse(id, ResponseEnum::Aborted(reason))),
                    )
                },
                RequestEnum::Call(id, call) => exists|ctx: Context|
                    {
                        &&& self.gives_context(ctx, id)
                        &&& #[trigger] call.dispatched(
                            self.handler(),
                            ctx,
                            id,
                            reply_context,
                            *old(router),
                            *final(router),
                        )
                    },
            },
    {
        let request_id: usize = match &request.0 {
            RequestEnum::Call(id, _) => *id,
            RequestEnum::Abort(id, _) => *id,
        };
        let ctx = Context::new(self.session_id.clone(), request_id);
        let ghost taken = request;
        handle_request(request, &ctx, &self.handler, reply_context, router);
        proof {
            if let RequestEnum::Call(id, call) = taken.0 {
                assert(self.gives_context(ctx, id));
                assert(call.dispatched(
                    self.handler(),
                    ctx,
                    id,
                    reply_context,
                    *old(router),
                    *final(router),
                ));
            }
        }
    }
}

} // verus!
