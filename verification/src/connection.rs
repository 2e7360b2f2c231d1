//! The engine's two states: without a pool, and connected.

use vstd::prelude::*;
use crate::state::{Core, EngineState};

verus! {

/// Records that the pool is open. The statements of an automatic migration
/// are those of `internal_create_tables`, which needs no pool to compile.
pub fn connect(core: &mut Core)
    ensures
        final(core).engine == EngineState::Connected,
        final(core).registry == old(core).registry,
        final(core).identities == old(core).identities,
        final(core).transactions == old(core).transactions,
{
    core.engine = EngineState::Connected;
}

/// Drops the pool and clears the identity map; the schema registry stays
/// as it is.
pub fn reset_engine(core: &mut Core)
    ensures
        final(core).engine == EngineState::Uninitialized,
        final(core).identities.entries() =~= Map::empty(),
        final(core).registry == old(core).registry,
        final(core).transactions == old(core).transactions,
{
    core.engine = EngineState::Uninitialized;
    core.identities.clear();
}

} // verus!
