//! The minecraft_savedata family: players with nested state.

use vstd::prelude::*;
use crate::datasets::mesh::Vector3;
use crate::generator::{generate_vec, generated_vec, lemma_generated_vec_well_formed};
use crate::record::{views, Generate, StructuralEq};
use crate::stream::{CountRange, Stream};
use crate::text::{generate_text, generated_text, is_lowercase, lemma_generated_text, same_bytes};
use crate::roundtrip::verify;

verus! {

/// The shortest name, in bytes.
pub const NAME_MIN: u32 = 3;

/// The bound that every name is shorter than, in bytes.
pub const NAME_MAX: u32 = 17;

/// The number of slots of an inventory.
pub const SLOTS: usize = 36;

/// The number of kinds of item.
pub const ITEM_KINDS: u32 = 1024;

/// The largest stack of one item.
pub const STACK_MAX: u32 = 64;

/// The largest health and food level.
pub const LEVEL_MAX: u32 = 20;

/// A stack of items of one kind.
#[derive(Clone, Copy, Debug, PartialEq, Eq, Structural)]
pub struct Item {
    pub kind: u32,
    pub count: u32,
}

/// A player's vital statistics.
#[derive(Clone, Copy, Debug, PartialEq, Eq, Structural)]
pub struct Stats {
    pub health: u32,
    pub food: u32,
    pub experience: u64,
}

/// One player.
#[derive(Clone, Debug, PartialEq, Eq)]
pub struct Player {
    pub name: Vec<u8>,
    pub position: Vector3,
    pub stats: Stats,
    pub inventory: Vec<Item>,
}

/// A player as a mathematical value.
pub struct PlayerModel {
    pub name: Seq<u8>,
    pub position: Vector3,
    pub stats: Stats,
    pub inventory: Seq<Item>,
}

impl PlayerModel {
    /// The name has a permitted length and holds lower-case letters only,
    /// position and statistics lie in their ranges, and the inventory has
    /// at most `SLOTS` stacks, each well formed.
    pub open spec fn wf(self) -> bool {
        &&& NAME_MIN <= self.name.len() < NAME_MAX
        &&& is_lowercase(self.name)
        &&& self.position.wf()
        &&& self.stats.wf()
        &&& self.inventory.len() <= SLOTS
        &&& forall|i: int| 0 <= i < self.inventory.len() ==> (#[trigger] self.inventory[i]).wf()
    }
}

impl Item {
    /// The kind exists and the stack holds between one and `STACK_MAX`
    /// items.
    pub open spec fn wf(self) -> bool {
        self.kind < ITEM_KINDS && 1 <= self.count <= STACK_MAX
    }
}

impl Stats {
    /// Health and food are at most `LEVEL_MAX`.
    pub open spec fn wf(self) -> bool {
        self.health <= LEVEL_MAX && self.food <= LEVEL_MAX
    }
}

/// The range that the number of filled slots is drawn from.
pub open spec fn slots_range() -> CountRange {
    CountRange { min: 0, max: (SLOTS + 1) as usize }
}

impl View for Item {
    type V = Item;

    open spec fn view(&self) -> Item {
        *self
    }
}

impl View for Stats {
    type V = Stats;

    open spec fn view(&self) -> Stats {
        *self
    }
}

impl View for Player {
    type V = PlayerModel;

    open spec fn view(&self) -> PlayerModel {
        PlayerModel {
            name: self.name@,
            position: self.position,
            stats: self.stats,
            inventory: views(self.inventory@),
        }
    }
}

impl Generate for Item {
    /// One draw for the kind, one for the count.
    open spec fn generated(stream: Stream) -> (Item, Stream) {
        (
            Item {
                kind: stream.peek() % ITEM_KINDS,
                count: (1 + stream.skip(1).peek() % STACK_MAX) as u32,
            },
            stream.skip(2),
        )
    }

    open spec fn well_formed(item: Item) -> bool {
        item.wf()
    }

    proof fn lemma_generated_well_formed(stream: Stream) {
    }

    fn generate(stream: &mut Stream) -> (item: Item) {
        let kind = stream.below(ITEM_KINDS);
        let count = 1 + stream.below(STACK_MAX);
        proof {
            old(stream).lemma_skip_add(1, 1);
        }
        Item { kind, count }
    }
}

impl Generate for Stats {
    /// One draw each for health and food, a 64-bit draw for experience.
    open spec fn generated(stream: Stream) -> (Stats, Stream) {
        (
            Stats {
                health: stream.peek() % ((LEVEL_MAX + 1) as u32),
                food: stream.skip(1).peek() % ((LEVEL_MAX + 1) as u32),
                experience: stream.skip(2).peek_u64(),
            },
            stream.skip(4),
        )
    }

    open spec fn well_formed(stats: Stats) -> bool {
        stats.wf()
    }

    proof fn lemma_generated_well_formed(stream: Stream) {
    }

    fn generate(stream: &mut Stream) -> (stats: Stats) {
        let health = stream.below(LEVEL_MAX + 1);
        let food = stream.below(LEVEL_MAX + 1);
        let experience = stream.next_u64();
        proof {
            old(stream).lemma_skip_add(1, 1);
            old(stream).lemma_skip_add(2, 2);
        }
        Stats { health, food, experience }
    }
}

impl Generate for Player {
    /// The name, the position, the statistics, then the inventory: a
    /// number of filled slots and that many items.
    open spec fn generated(stream: Stream) -> (PlayerModel, Stream) {
        let (name, after_name) = generated_text(stream, NAME_MIN, NAME_MAX);
        let (position, after_position) = Vector3::generated(after_name);
        let (stats, after_stats) = Stats::generated(after_position);
        let (inventory, after) = generated_vec::<Item>(after_stats, slots_range());
        (PlayerModel { name, position, stats, inventory }, after)
    }

    open spec fn well_formed(player: PlayerModel) -> bool {
        player.wf()
    }

    proof fn lemma_generated_well_formed(stream: Stream) {
        lemma_generated_text(stream, NAME_MIN, NAME_MAX);
        let after_name = generated_text(stream, NAME_MIN, NAME_MAX).1;
        let after_position = Vector3::generated(after_name).1;
        let after_stats = Stats::generated(after_position).1;
        lemma_generated_vec_well_formed::<Item>(after_stats, slots_range());
    }

    fn generate(stream: &mut Stream) -> (player: Player) {
        let name = generate_text(stream, NAME_MIN, NAME_MAX);
        let position = Vector3::generate(stream);
        let stats = Stats::generate(stream);
        let inventory = generate_vec::<Item>(stream, CountRange { min: 0, max: SLOTS + 1 });
        Player { name, position, stats, inventory }
    }
}

impl StructuralEq for Item {
    fn same(&self, other: &Item) -> (equal: bool) {
        self.kind == other.kind && self.count == other.count
    }
}

impl StructuralEq for Stats {
    fn same(&self, other: &Stats) -> (equal: bool) {
        self.health == other.health && self.food == other.food && self.experience
            == other.experience
    }
}

impl StructuralEq for Player {
    fn same(&self, other: &Player) -> (equal: bool) {
        same_bytes(&self.name, &other.name) && self.position.same(&other.position)
            && self.stats.same(&other.stats) && verify(&self.inventory, &other.inventory)
    }
}

} // verus!
