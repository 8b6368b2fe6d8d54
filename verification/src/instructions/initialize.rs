//! Creating the registry, once.

use crate::accounts::{Registry, INITIAL_SPACE};
use crate::error::Error;
use crate::state::{Collection, Items};
use vstd::prelude::*;

verus! {

/// The accounts of the registry's creation.
#[derive(Clone, Debug, PartialEq, Eq)]
pub struct Initialize {
    /// The place of the registry: empty until it is created.
    pub authority: Option<Registry>,
    /// The parameter with which the registry's authority is derived.
    pub bump: u8,
}

/// Whether `registry` is a registry as it is created with `bump`: no item,
/// an empty escrow, storage of the initial size.
pub open spec fn fresh_registry(registry: Registry, bump: u8) -> bool {
    &&& registry.collection.items@ == Seq::<Items>::empty()
    &&& registry.collection.bump == bump
    &&& registry.lamports == 0
    &&& registry.space == INITIAL_SPACE
}

/// How the creation ends: it succeeds exactly where no registry exists, and
/// then a fresh and sound registry stands in its place; where one exists it
/// fails with `AlreadyInitialized`, and nothing has changed.
pub open spec fn initialize_outcome(
    pre: Initialize,
    post: Initialize,
    r: Result<(), Error>,
) -> bool {
    match r {
        Ok(()) => {
            &&& pre.authority is None
            &&& post.authority is Some
            &&& fresh_registry(post.authority->Some_0, pre.bump)
            &&& post.authority->Some_0.wf()
            &&& post.bump == pre.bump
        },
        Err(e) => {
            &&& pre.authority is Some
            &&& e == Error::AlreadyInitialized
            &&& post == pre
        },
    }
}

/// Creates the registry, empty, and records the bump in it. Where a registry
/// exists already, fails with `AlreadyInitialized` and changes nothing.
pub fn process_initialize(ctx: &mut Initialize) -> (r: Result<(), Error>)
    ensures
        initialize_outcome(*old(ctx), *final(ctx), r),
{
    if ctx.authority.is_some() {
        return Err(Error::AlreadyInitialized);
    }
    ctx.authority = Some(
        Registry { collection: Collection::new(ctx.bump), lamports: 0, space: INITIAL_SPACE },
    );
    Ok(())
}

} // verus!
