//! How a zombie picks its target and what it does about it.
//!
//! A zombie goes for the nearest of the living humans and the player. The
//! caller measures: for one zombie it hands in a row of squared distances, one
//! for each human in the order of the humans and a last one for the player.

use vstd::prelude::*;
use crate::entity::Entity;
use crate::number::{lt, less, LARGEST};

verus! {

/// The square of the distance below which a zombie catches its target:
/// 160000, the square of 400.
pub const CATCH_RANGE: u64 = 0x4103_8800_0000_0000;

/// The length of the step of a zombie that does not catch its target: 400.
pub const STRIDE: u64 = 0x4079_0000_0000_0000;

/// What a zombie goes for: the human at an index, or the player.
#[derive(Clone, Copy, Debug, PartialEq, Eq, Structural)]
pub enum Target {
    Human(usize),
    Player,
}

/// What a zombie does in a turn.
#[derive(Clone, Copy, Debug, PartialEq, Eq, Structural)]
pub enum Chase {
    /// It stays: it is dead, or it has no target.
    Rest,
    /// It lands on its target.
    Catch(Target),
    /// It steps towards its target, which is at the given squared distance.
    Advance(Target, u64),
}

impl Chase {
    /// Whether the target, if it is a human, is one of `humans` many.
    pub open spec fn in_range(self, humans: nat) -> bool {
        match self {
            Chase::Rest => true,
            Chase::Catch(Target::Human(h)) => h < humans,
            Chase::Advance(Target::Human(h), _) => h < humans,
            _ => true,
        }
    }
}

/// Whether entry `i` of the row stands for something a zombie may go for: a
/// living human or the player, at a distance below the largest finite number.
pub open spec fn eligible(humans: Seq<Entity>, row: Seq<u64>, i: int) -> bool {
    &&& 0 <= i <= humans.len()
    &&& i < row.len()
    &&& i < humans.len() ==> humans[i].alive
    &&& lt(row[i], LARGEST)
}

/// Whether entry `i` is the nearest: nothing eligible is nearer, and what is
/// eligible and as near comes later in the row.
pub open spec fn is_nearest(humans: Seq<Entity>, row: Seq<u64>, i: int) -> bool {
    &&& eligible(humans, row, i)
    &&& forall|j: int| eligible(humans, row, j) && j < i ==> lt(row[i], #[trigger] row[j])
    &&& forall|j: int| eligible(humans, row, j) && i < j ==> !lt(#[trigger] row[j], row[i])
}

/// The nearest entry of the row, if any entry is eligible.
pub open spec fn nearest(humans: Seq<Entity>, row: Seq<u64>) -> Option<int> {
    if exists|i: int| is_nearest(humans, row, i) {
        Some(choose|i: int| is_nearest(humans, row, i))
    } else {
        None
    }
}

/// At most one entry is the nearest.
pub proof fn nearest_is_unique(humans: Seq<Entity>, row: Seq<u64>, i: int, j: int)
    requires
        is_nearest(humans, row, i),
        is_nearest(humans, row, j),
    ensures
        i == j,
{
    if i < j {
        assert(lt(row[j], row[i]));
        assert(!lt(row[j], row[i]));
    } else if j < i {
        assert(lt(row[i], row[j]));
        assert(!lt(row[i], row[j]));
    }
}

/// What entry `i` of a row stands for, with `humans` many humans.
pub open spec fn target_at(i: int, humans: nat) -> Target {
    if i < humans {
        Target::Human(i as usize)
    } else {
        Target::Player
    }
}

/// What a zombie does, given the humans and its row of squared distances.
pub open spec fn chase_of(zombie: Entity, humans: Seq<Entity>, row: Seq<u64>) -> Chase {
    if !zombie.alive {
        Chase::Rest
    } else {
        match nearest(humans, row) {
            None => Chase::Rest,
            Some(i) => if lt(row[i], CATCH_RANGE) {
                Chase::Catch(target_at(i, humans.len()))
            } else {
                Chase::Advance(target_at(i, humans.len()), row[i])
            },
        }
    }
}

/// Finds the nearest entry of a row.
pub fn find_nearest(humans: &Vec<Entity>, row: &Vec<u64>) -> (r: Option<usize>)
    requires
        row.len() == humans.len() + 1,
    ensures
        match r {
            Some(i) => nearest(humans@, row@) == Some(i as int) && is_nearest(humans@, row@, i as int),
            None => nearest(humans@, row@) is None && forall|j: int| !eligible(humans@, row@, j),
        },
{
    let mut best: Option<usize> = None;
    let mut least: u64 = LARGEST;
    let mut i: usize = 0;
    while i < row.len()
        invariant
            row.len() == humans.len() + 1,
            i <= row.len(),
            match best {
                Some(b) => {
                    &&& b < i
                    &&& least == row[b as int]
                    &&& eligible(humans@, row@, b as int)
                    &&& forall|j: int|
                        eligible(humans@, row@, j) && j < b ==> lt(row[b as int], #[trigger] row[j])
                    &&& forall|j: int|
                        eligible(humans@, row@, j) && b < j < i ==> !lt(
                            #[trigger] row[j],
                            row[b as int],
                        )
                },
                None => {
                    &&& least == LARGEST
                    &&& forall|j: int| j < i ==> !eligible(humans@, row@, j)
                },
            },
        decreases row.len() - i,
    {
        let open = i == humans.len() || humans[i].alive;
        if open && less(row[i], least) {
            best = Some(i);
            least = row[i];
        }
        i = i + 1;
    }
    proof {
        match best {
            Some(b) => {
                assert(is_nearest(humans@, row@, b as int));
                let c = choose|k: int| is_nearest(humans@, row@, k);
                nearest_is_unique(humans@, row@, b as int, c);
            },
            None => {
                assert forall|k: int| !is_nearest(humans@, row@, k) by {
                    assert(!eligible(humans@, row@, k));
                }
            },
        }
    }
    best
}

/// Decides what a zombie does.
pub fn decide(zombie: &Entity, humans: &Vec<Entity>, row: &Vec<u64>) -> (c: Chase)
    requires
        zombie.alive ==> row.len() == humans.len() + 1,
    ensures
        c == chase_of(*zombie, humans@, row@),
        c.in_range(humans@.len()),
{
    if !zombie.alive {
        return Chase::Rest;
    }
    match find_nearest(humans, row) {
        None => Chase::Rest,
        Some(i) => {
            let target = if i < humans.len() {
                Target::Human(i)
            } else {
                Target::Player
            };
            if less(row[i], CATCH_RANGE) {
                Chase::Catch(target)
            } else {
                Chase::Advance(target, row[i])
            }
        },
    }
}

/// Among the first `n` entries of a row of which one is eligible, one is the
/// nearest.
proof fn nearest_among(humans: Seq<Entity>, row: Seq<u64>, n: int) -> (i: int)
    requires
        0 <= n <= row.len(),
        exists|j: int| j < n && eligible(humans, row, j),
    ensures
        i < n,
        eligible(humans, row, i),
        forall|j: int| eligible(humans, row, j) && j < i ==> lt(row[i], #[trigger] row[j]),
        forall|j: int| eligible(humans, row, j) && i < j < n ==> !lt(#[trigger] row[j], row[i]),
    decreases n,
{
    let last = n - 1;
    if exists|j: int| j < last && eligible(humans, row, j) {
        let before = nearest_among(humans, row, last);
        if eligible(humans, row, last) && lt(row[last], row[before]) {
            last
        } else {
            before
        }
    } else {
        last
    }
}

/// A living zombie with something to go for does not rest: as soon as one
/// entry of its row is eligible, it goes for the nearest. The player is
/// eligible as soon as it is at a finite distance.
pub proof fn a_zombie_with_a_target_moves(zombie: Entity, humans: Seq<Entity>, row: Seq<u64>, j: int)
    requires
        zombie.alive,
        eligible(humans, row, j),
    ensures
        nearest(humans, row) is Some,
        is_nearest(humans, row, nearest(humans, row).unwrap()),
        chase_of(zombie, humans, row) != Chase::Rest,
{
    let i = nearest_among(humans, row, row.len() as int);
    assert(is_nearest(humans, row, i));
}

/// A zombie rests exactly if it is dead or no entry of its row is eligible.
pub proof fn a_zombie_rests_only_without_target(zombie: Entity, humans: Seq<Entity>, row: Seq<u64>)
    ensures
        chase_of(zombie, humans, row) == Chase::Rest <==> !zombie.alive || forall|j: int|
            !eligible(humans, row, j),
{
    if zombie.alive {
        if exists|j: int| eligible(humans, row, j) {
            let j = choose|j: int| eligible(humans, row, j);
            a_zombie_with_a_target_moves(zombie, humans, row, j);
        } else {
            assert forall|i: int| !is_nearest(humans, row, i) by {
                assert(!eligible(humans, row, i));
            }
        }
    }
}

} // verus!
