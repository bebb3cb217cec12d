//! The actors of the game: the player, the humans and the zombies.

use vstd::prelude::*;
use crate::point::Point;

verus! {

/// An actor: where it stands, where it stood when it was made, and whether it
/// is still alive.
#[derive(Clone, Copy, Debug)]
pub struct Entity {
    pub id: i32,
    pub position: Point,
    pub start_position: Point,
    pub alive: bool,
}

impl Entity {
    /// A living actor that stands at (`x`, `y`) and remembers that point.
    pub fn new(id: i32, x: u64, y: u64) -> (e: Entity)
        ensures
            e == (Entity {
                id,
                position: Point { x, y },
                start_position: Point { x, y },
                alive: true,
            }),
    {
        Entity { id, position: Point::new(x, y), start_position: Point::new(x, y), alive: true }
    }

    /// The actor back where it started. Whether it is alive stays as it is.
    pub open spec fn rewound(self) -> Entity {
        Entity {
            id: self.id,
            position: self.start_position,
            start_position: self.start_position,
            alive: self.alive,
        }
    }

    /// The actor at `position`.
    pub open spec fn moved_to(self, position: Point) -> Entity {
        Entity {
            id: self.id,
            position,
            start_position: self.start_position,
            alive: self.alive,
        }
    }

    /// The actor, dead where `dies` holds.
    pub open spec fn struck(self, dies: bool) -> Entity {
        Entity {
            id: self.id,
            position: self.position,
            start_position: self.start_position,
            alive: self.alive && !dies,
        }
    }

    /// Puts the actor back where it started. Whether it is alive stays as it
    /// is.
    pub fn reset(&mut self)
        ensures
            *final(self) == old(self).rewound(),
    {
        self.position.x = self.start_position.x;
        self.position.y = self.start_position.y;
    }
}

/// How many of the actors are alive.
pub open spec fn living(actors: Seq<Entity>) -> nat
    decreases actors.len(),
{
    if actors.len() == 0 {
        0
    } else {
        living(actors.drop_last()) + if actors.last().alive {
            1nat
        } else {
            0nat
        }
    }
}

/// Whether every actor that is alive in `after` is alive in `before`, one for
/// one.
pub open spec fn none_revived(before: Seq<Entity>, after: Seq<Entity>) -> bool {
    &&& before.len() == after.len()
    &&& forall|i: int| 0 <= i < after.len() && after[i].alive ==> before[i].alive
}

/// None is alive exactly where every actor is dead.
pub proof fn living_is_zero(actors: Seq<Entity>)
    ensures
        living(actors) == 0 <==> forall|i: int| 0 <= i < actors.len() ==> !actors[i].alive,
    decreases actors.len(),
{
    if actors.len() > 0 {
        let front = actors.drop_last();
        living_is_zero(front);
        assert(forall|i: int| 0 <= i < front.len() ==> front[i] == actors[i]);
        if living(actors) == 0 {
            assert forall|i: int| 0 <= i < actors.len() implies !actors[i].alive by {
                if i < front.len() {
                    assert(front[i] == actors[i]);
                }
            }
        }
    }
}

/// Where no actor came back to life, no more are alive than before.
pub proof fn living_does_not_grow(before: Seq<Entity>, after: Seq<Entity>)
    requires
        none_revived(before, after),
    ensures
        living(after) <= living(before),
    decreases before.len(),
{
    if before.len() > 0 {
        living_does_not_grow(before.drop_last(), after.drop_last());
    }
}

/// Counts the actors that are alive.
pub fn count_living(actors: &Vec<Entity>) -> (n: usize)
    ensures
        n == living(actors@),
{
    let mut n: usize = 0;
    let mut i: usize = 0;
    while i < actors.len()
        invariant
            i <= actors.len(),
            n == living(actors@.take(i as int)),
            n <= i,
        decreases actors.len() - i,
    {
        proof {
            assert(actors@.take(i + 1).drop_last() =~= actors@.take(i as int));
        }
        if actors[i].alive {
            n = n + 1;
        }
        i = i + 1;
    }
    proof {
        assert(actors@.take(i as int) =~= actors@);
    }
    n
}

/// A copy of the actors, in their order.
pub fn copy_actors(actors: &Vec<Entity>) -> (copy: Vec<Entity>)
    ensures
        copy@ == actors@,
{
    let mut copy: Vec<Entity> = Vec::new();
    let mut i: usize = 0;
    while i < actors.len()
        invariant
            i <= actors.len(),
            copy@ == actors@.take(i as int),
        decreases actors.len() - i,
    {
        copy.push(actors[i]);
        proof {
            assert(copy@ =~= actors@.take(i + 1));
        }
        i = i + 1;
    }
    proof {
        assert(actors@.take(i as int) =~= actors@);
    }
    copy
}

} // verus!
