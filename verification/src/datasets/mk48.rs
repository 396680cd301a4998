//! The mk48 family: updates of a game world, one variant per kind of event.

use vstd::prelude::*;
use crate::datasets::mesh::Vector3;
use crate::record::{Generate, StructuralEq};
use crate::stream::Stream;

verus! {

/// The number of kinds of entity.
pub const KINDS: u32 = 16;

/// The bound that every damage is below.
pub const DAMAGE_MAX: u32 = 1000;

/// One update.
#[derive(Clone, Copy, Debug, PartialEq, Eq, Structural)]
pub enum Update {
    /// An entity of some kind appears.
    Spawn { entity: u32, kind: u32 },
    /// An entity is at a new position.
    Move { entity: u32, position: Vector3 },
    /// An entity takes damage.
    Damage { entity: u32, amount: u32 },
    /// An entity is gone.
    Despawn { entity: u32 },
}

impl Update {
    /// The fields lie in the ranges they are drawn from.
    pub open spec fn wf(self) -> bool {
        match self {
            Update::Spawn { entity, kind } => kind < KINDS,
            Update::Move { entity, position } => position.wf(),
            Update::Damage { entity, amount } => amount < DAMAGE_MAX,
            Update::Despawn { entity } => true,
        }
    }
}

impl View for Update {
    type V = Update;

    open spec fn view(&self) -> Update {
        *self
    }
}

impl Generate for Update {
    /// One draw selects the variant, the next is the entity, and the
    /// variant's own fields follow.
    open spec fn generated(stream: Stream) -> (Update, Stream) {
        let variant = stream.peek() % 4;
        let entity = stream.skip(1).peek();
        let rest = stream.skip(2);
        if variant == 0 {
            (Update::Spawn { entity, kind: rest.peek() % KINDS }, rest.skip(1))
        } else if variant == 1 {
            let (position, after) = Vector3::generated(rest);
            (Update::Move { entity, position }, after)
        } else if variant == 2 {
            (Update::Damage { entity, amount: rest.peek() % DAMAGE_MAX }, rest.skip(1))
        } else {
            (Update::Despawn { entity }, rest)
        }
    }

    open spec fn well_formed(update: Update) -> bool {
        update.wf()
    }

    proof fn lemma_generated_well_formed(stream: Stream) {
    }

    fn generate(stream: &mut Stream) -> (update: Update) {
        let variant = stream.below(4);
        let entity = stream.next_u32();
        proof {
            old(stream).lemma_skip_add(1, 1);
        }
        if variant == 0 {
            let kind = stream.below(KINDS);
            Update::Spawn { entity, kind }
        } else if variant == 1 {
            let position = Vector3::generate(stream);
            Update::Move { entity, position }
        } else if variant == 2 {
            let amount = stream.below(DAMAGE_MAX);
            Update::Damage { entity, amount }
        } else {
            Update::Despawn { entity }
        }
    }
}

impl StructuralEq for Update {
    fn same(&self, other: &Update) -> (equal: bool) {
        match (*self, *other) {
            (Update::Spawn { entity: a, kind: b }, Update::Spawn { entity: c, kind: d }) => a == c
                && b == d,
            (
                Update::Move { entity: a, position: b },
                Update::Move { entity: c, position: d },
            ) => a == c && b.same(&d),
            (
                Update::Damage { entity: a, amount: b },
                Update::Damage { entity: c, amount: d },
            ) => a == c && b == d,
            (Update::Despawn { entity: a }, Update::Despawn { entity: c }) => a == c,
            _ => false,
        }
    }
}

} // verus!
