//! The identity of the caller, carried with one request.

use vstd::prelude::*;

verus! {

/// The authenticated caller of one request.
///
/// A `Ctx` is fixed once built: the only way to obtain one is [`Ctx::new`],
/// and the only thing it offers is to read the user id back.
#[derive(Clone, Copy, Debug, PartialEq, Eq, Structural)]
pub struct Ctx {
    user_id: u64,
}

impl Ctx {
    /// The user id this context was built with.
    pub closed spec fn spec_user_id(&self) -> u64 {
        self.user_id
    }

    /// Builds the context of the caller `user_id`.
    pub fn new(user_id: u64) -> (ctx: Self)
        ensures
            ctx.spec_user_id() == user_id,
    {
        Ctx { user_id }
    }

    /// The caller's user id.
    #[verifier::when_used_as_spec(spec_user_id)]
    pub fn user_id(&self) -> (id: u64)
        ensures
            id == self.spec_user_id(),
    {
        self.user_id
    }

    /// A context is determined by its user id: two contexts of one user are
    /// the same value.
    pub proof fn lemma_determined_by_user_id(a: Ctx, b: Ctx)
        requires
            a.spec_user_id() == b.spec_user_id(),
        ensures
            a == b,
    {
    }
}

} // verus!
