//! What a handler is told about the session that a call came in on.

use crate::clock::unix_now;
use vstd::prelude::*;

verus! {

/// The session that a call belongs to.
#[derive(Clone, Debug)]
pub struct Context {
    /// The session's name.
    pub session_id: String,
    /// The id of the request that this context was made for.
    pub request_id: usize,
    /// Who is calling, where that is known.
    pub user_id: Option<String>,
    /// When the context was made, in seconds since the Unix epoch.
    pub created_at: u64,
}

impl Context {
    /// A context made at `unix_secs` seconds since the Unix epoch, with no
    /// user. A time before the epoch is kept by its low 64 bits.
    pub fn created(session_id: String, request_id: usize, unix_secs: i64) -> (ctx: Context)
        ensures
            ctx.session_id == session_id,
            ctx.request_id == request_id,
            ctx.user_id is None,
            ctx.created_at == unix_secs as u64,
    {
        Context {
            session_id,
            request_id,
            user_id: None,
            created_at: #[verifier::truncate]
            (unix_secs as u64),
        }
    }

    /// A context made now, by the wall clock, with no user.
    pub fn new(session_id: String, request_id: usize) -> (ctx: Context)
        ensures
            ctx.session_id == session_id,
            ctx.request_id == request_id,
            ctx.user_id is None,
    {
        Self::created(session_id, request_id, unix_now())
    }

    /// The same context with the user named.
    pub fn with_user(self, user_id: String) -> (ctx: Context)
        ensures
            ctx.session_id == self.session_id,
            ctx.request_id == self.request_id,
            ctx.user_id == Some(user_id),
            ctx.created_at == self.created_at,
    {
        let mut ctx = self;
        ctx.user_id = Some(user_id);
        ctx
    }
}

} // verus!
