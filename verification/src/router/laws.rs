//! What holds of the registry of calls, whatever requests come in.

use crate::router::CallView;
use crate::router::RouterState;
use crate::utils::AbortFlags;
use vstd::prelude::*;

verus! {

impl<RCtx> RouterState<RCtx> {
    /// Whether any call was ever recorded for the reply context and the
    /// request id.
    pub open spec fn knows(self, reply_context: RCtx, request_id: usize) -> bool {
        exists|at: int|
            0 <= at < self.calls.len() && (#[trigger] self.calls[at]).request_id == request_id
                && self.calls[at].reply_context == reply_context
    }

    /// Whether the state is one that a router can be in: every token lies in
    /// the table of flags, no two calls share a token, and of the calls
    /// recorded for one reply context and one request id all but the last
    /// have their tokens tripped.
    pub open spec fn well_formed(self) -> bool {
        &&& forall|i: int|
            0 <= i < self.calls.len() ==> 0 <= (#[trigger] self.calls[i]).token < self.flags.len()
        &&& forall|i: int, j: int|
            0 <= i < j < self.calls.len() ==> (#[trigger] self.calls[i]).token
                != (#[trigger] self.calls[j]).token
        &&& forall|i: int, j: int|
            0 <= i < j < self.calls.len() && (#[trigger] self.calls[i]).request_id
                == (#[trigger] self.calls[j]).request_id && self.calls[i].reply_context
                == self.calls[j].reply_context ==> self.is_cancelled(i)
    }

    /// A call is current for a pair exactly if some call was recorded for
    /// the pair, and the current call is one of those.
    pub proof fn lemma_current_is_known(self, reply_context: RCtx, request_id: usize)
        ensures
            self.current(reply_context, request_id).is_some() <==> self.knows(
                reply_context,
                request_id,
            ),
            self.current(reply_context, request_id) matches Some(at) ==> self.is_current(
                reply_context,
                request_id,
                at,
            ),
        decreases self.calls.len(),
    {
        if self.knows(reply_context, request_id) {
            self.lemma_last_of_known(reply_context, request_id, self.calls.len() as int);
        }
    }

    /// Among the first `upto` calls, where one was recorded for the pair,
    /// there is a last one.
    proof fn lemma_last_of_known(self, reply_context: RCtx, request_id: usize, upto: int)
        requires
            0 <= upto <= self.calls.len(),
            exists|at: int|
                0 <= at < upto && (#[trigger] self.calls[at]).request_id == request_id
                    && self.calls[at].reply_context == reply_context,
            forall|j: int|
                upto <= j < self.calls.len() ==> !((#[trigger] self.calls[j]).request_id
                    == request_id && self.calls[j].reply_context == reply_context),
        ensures
            exists|at: int| self.is_current(reply_context, request_id, at),
        decreases upto,
    {
        let last = upto - 1;
        if self.calls[last].request_id == request_id && self.calls[last].reply_context
            == reply_context {
            assert(self.is_current(reply_context, request_id, last));
        } else {
            self.lemma_last_of_known(reply_context, request_id, last);
        }
    }

    /// The state of a router through which nothing was dispatched is well
    /// formed.
    pub proof fn lemma_empty_is_well_formed()
        ensures
            Self::empty().well_formed(),
    {
    }

    /// An abort for a pair that no call was ever registered for changes
    /// nothing: no token is touched.
    pub proof fn lemma_abort_of_unknown_call_changes_nothing(
        self,
        reply_context: RCtx,
        request_id: usize,
    )
        requires
            !self.knows(reply_context, request_id),
        ensures
            self.abort_resolved(reply_context, request_id) == self,
    {
        self.lemma_current_is_known(reply_context, request_id);
    }

    /// A call that was just registered is retained, is the current one for
    /// its pair, and has an untripped token; the calls recorded before it
    /// stay as they were recorded.
    pub proof fn lemma_registered_call_is_fresh(self, reply_context: RCtx, request_id: usize)
        requires
            self.well_formed(),
        ensures
            ({
                let after = self.registered(reply_context, request_id);
                let serial = self.calls.len() as int;
                &&& after.calls.len() == serial + 1
                &&& after.calls.subrange(0, serial) == self.calls
                &&& after.current(reply_context, request_id) == Some(serial)
                &&& after.is_retained(serial)
                &&& !after.is_cancelled(serial)
                &&& after.calls[serial].token == self.flags.len()
            }),
    {
        let after = self.registered(reply_context, request_id);
        let serial = self.calls.len() as int;
        assert(after.calls.subrange(0, serial) =~= self.calls);
        assert(after.is_current(reply_context, request_id, serial));
        assert forall|at: int| after.is_current(reply_context, request_id, at) implies at
            == serial by {
            if at < serial {
                assert(after.calls[serial].request_id == request_id);
            }
        }
        self.lemma_current_is_known(reply_context, request_id);
        if let Some(old_at) = self.current(reply_context, request_id) {
            assert(self.calls[old_at].token < self.flags.len());
        }
    }

    /// After a call, an abort for the same pair trips the call's token,
    /// which was not tripped before the abort.
    pub proof fn lemma_abort_after_call_trips_its_token(
        self,
        reply_context: RCtx,
        request_id: usize,
    )
        requires
            self.well_formed(),
        ensures
            ({
                let called = self.registered(reply_context, request_id);
                let aborted = called.abort_resolved(reply_context, request_id);
                let serial = self.calls.len() as int;
                &&& !called.is_cancelled(serial)
                &&& aborted.is_cancelled(serial)
                &&& aborted.calls == called.calls
            }),
    {
        self.lemma_registered_call_is_fresh(reply_context, request_id);
    }

    /// A second call for a pair, made while the first has not ended, trips
    /// the token of the first and has a fresh, untripped token of its own.
    pub proof fn lemma_second_call_supersedes_first(self, reply_context: RCtx, request_id: usize)
        requires
            self.well_formed(),
        ensures
            ({
                let first = self.registered(reply_context, request_id);
                let second = first.registered(reply_context, request_id);
                let serial = self.calls.len() as int;
                &&& !first.is_cancelled(serial)
                &&& second.is_cancelled(serial)
                &&& !second.is_cancelled(serial + 1)
                &&& second.is_retained(serial)
                &&& second.is_retained(serial + 1)
            }),
    {
        self.lemma_registered_call_is_fresh(reply_context, request_id);
        self.lemma_registered_preserves_well_formed(reply_context, request_id);
        let first = self.registered(reply_context, request_id);
        first.lemma_registered_call_is_fresh(reply_context, request_id);
    }

    /// Registering a call keeps the state well formed.
    pub proof fn lemma_registered_preserves_well_formed(
        self,
        reply_context: RCtx,
        request_id: usize,
    )
        requires
            self.well_formed(),
        ensures
            self.registered(reply_context, request_id).well_formed(),
    {
        let after = self.registered(reply_context, request_id);
        let serial = self.calls.len() as int;
        self.lemma_current_is_known(reply_context, request_id);
        assert forall|i: int, j: int|
            0 <= i < j < after.calls.len() && (#[trigger] after.calls[i]).request_id
                == (#[trigger] after.calls[j]).request_id && after.calls[i].reply_context
                == after.calls[j].reply_context implies after.is_cancelled(i) by {
            if j < serial {
                assert(self.calls[i].request_id == self.calls[j].request_id);
                assert(self.is_cancelled(i));
            } else {
                let at = self.current(reply_context, request_id).unwrap();
                if i != at {
                    assert(self.calls[i].request_id == self.calls[at].request_id);
                    assert(self.is_cancelled(i));
                }
            }
        }
    }

    /// Resolving an abort keeps the state well formed.
    pub proof fn lemma_abort_resolved_preserves_well_formed(
        self,
        reply_context: RCtx,
        request_id: usize,
    )
        requires
            self.well_formed(),
        ensures
            self.abort_resolved(reply_context, request_id).well_formed(),
    {
        let after = self.abort_resolved(reply_context, request_id);
        assert forall|i: int, j: int|
            0 <= i < j < after.calls.len() && (#[trigger] after.calls[i]).request_id
                == (#[trigger] after.calls[j]).request_id && after.calls[i].reply_context
                == after.calls[j].reply_context implies after.is_cancelled(i) by {
            assert(self.calls[i].request_id == self.calls[j].request_id);
            assert(self.is_cancelled(i));
        }
    }

    /// Letting a call go keeps the state well formed.
    pub proof fn lemma_released_preserves_well_formed(self, serial: int)
        requires
            self.well_formed(),
        ensures
            self.released(serial).well_formed(),
    {
        let after = self.released(serial);
        assert forall|i: int, j: int|
            0 <= i < j < after.calls.len() && (#[trigger] after.calls[i]).request_id
                == (#[trigger] after.calls[j]).request_id && after.calls[i].reply_context
                == after.calls[j].reply_context implies after.is_cancelled(i) by {
            assert(self.calls[i].request_id == self.calls[j].request_id);
            assert(self.is_cancelled(i));
        }
    }

    /// Of the calls recorded for one reply context and one request id, at
    /// most one has an untripped token.
    pub proof fn lemma_one_live_call_per_pair(self, first: int, second: int)
        requires
            self.well_formed(),
            0 <= first < self.calls.len(),
            0 <= second < self.calls.len(),
            self.calls[first].request_id == self.calls[second].request_id,
            self.calls[first].reply_context == self.calls[second].reply_context,
            !self.is_cancelled(first),
            !self.is_cancelled(second),
        ensures
            first == second,
    {
    }

    /// Registering a call or resolving an abort for one pair touches no call
    /// of another pair: the token of such a call reads as before, and the
    /// call is retained as before.
    pub proof fn lemma_other_calls_are_untouched(
        self,
        reply_context: RCtx,
        request_id: usize,
        other: int,
    )
        requires
            self.well_formed(),
            0 <= other < self.calls.len(),
            !(self.calls[other].request_id == request_id && self.calls[other].reply_context
                == reply_context),
        ensures
            self.registered(reply_context, request_id).is_cancelled(other) == self.is_cancelled(
                other,
            ),
            self.abort_resolved(reply_context, request_id).is_cancelled(other)
                == self.is_cancelled(other),
            self.registered(reply_context, request_id).is_retained(other) == self.is_retained(
                other,
            ),
            self.abort_resolved(reply_context, request_id).is_retained(other) == self.is_retained(
                other,
            ),
    {
        self.lemma_current_is_known(reply_context, request_id);
        if let Some(at) = self.current(reply_context, request_id) {
            assert(at != other);
            assert(self.calls[at].token != self.calls[other].token);
        }
    }

    /// A token that was tripped stays tripped, and a call that was let go
    /// stays so, whatever is registered, aborted or let go afterwards.
    pub proof fn lemma_cancelled_and_released_are_final(
        self,
        serial: int,
        reply_context: RCtx,
        request_id: usize,
        other: int,
    )
        ensures
            self.is_cancelled(serial) ==> self.registered(reply_context, request_id).is_cancelled(
                serial,
            ) && self.abort_resolved(reply_context, request_id).is_cancelled(serial)
                && self.released(other).is_cancelled(serial),
            0 <= serial < self.calls.len() && !self.is_retained(serial) ==> !self.registered(
                reply_context,
                request_id,
            ).is_retained(serial) && !self.abort_resolved(reply_context, request_id).is_retained(
                serial,
            ) && !self.released(other).is_retained(serial),
    {
        self.lemma_current_is_known(reply_context, request_id);
    }

    /// Once a call has been let go, as it is when its terminal outcome is
    /// sent, it is not retained: every later reply of it is refused.
    pub proof fn lemma_released_call_is_not_retained(self, serial: int)
        ensures
            !self.released(serial).is_retained(serial),
            self.released(serial).released(serial) == self.released(serial),
            self.released(serial).flags == self.flags,
    {
        assert(self.released(serial).released(serial).calls =~= self.released(serial).calls);
    }

    /// The reply context of a request id is found while the call that was
    /// registered last under the id is retained, and is not found once that
    /// call has been let go.
    pub proof fn lemma_reply_context_lives_with_its_call(
        self,
        reply_context: RCtx,
        request_id: usize,
    )
        ensures
            ({
                let called = self.registered(reply_context, request_id);
                let serial = self.calls.len() as int;
                &&& called.reply_context_of(request_id) == Some(reply_context)
                &&& called.released(serial).reply_context_of(request_id) is None
            }),
    {
        let called = self.registered(reply_context, request_id);
        let serial = self.calls.len() as int;
        let gone = called.released(serial);
        assert(called.is_latest(request_id, serial));
        assert forall|at: int| called.is_latest(request_id, at) implies at == serial by {
            if at < serial {
                assert(called.calls[serial].request_id == request_id);
            }
        }
        assert(gone.is_latest(request_id, serial));
        assert forall|at: int| gone.is_latest(request_id, at) implies at == serial by {
            if at < serial {
                assert(gone.calls[serial].request_id == request_id);
            }
        }
    }

    /// A request id under which no call was ever registered has no reply
    /// context.
    pub proof fn lemma_unknown_request_has_no_reply_context(self, request_id: usize)
        requires
            forall|at: int|
                0 <= at < self.calls.len() ==> (#[trigger] self.calls[at]).request_id
                    != request_id,
        ensures
            self.reply_context_of(request_id) is None,
    {
    }
}

} // verus!
