//! What a game holds, and what a turn makes of it, as plain values.
//!
//! The functions here say what the parts of a turn compute: they are what
//! the contracts of `game` speak of. What they take as `keys`, `landings` and
//! `kill_keys` is what the caller of the game has measured.

use vstd::prelude::*;
use crate::entity::{Entity, living, none_revived, living_does_not_grow};
use crate::number::{lt, clamped, is_nan, rank};
use crate::point::Point;
use crate::pursuit::{Chase, Target, chase_of};
use crate::score::{multiplier, multiplier_is_bounded, table, LARGEST_BONUS};

verus! {

/// The square of the distance from the player below which a zombie dies:
/// 4000000, the square of 2000.
pub const KILL_RANGE: u64 = 0x414E_8480_0000_0000;

/// The largest first coordinate of the field: 15999.
pub const FIELD_WIDTH: u64 = 0x40CF_3F80_0000_0000;

/// The largest second coordinate of the field: 8999.
pub const FIELD_HEIGHT: u64 = 0x40C1_9380_0000_0000;

/// What a game holds, as plain values.
pub struct GameState {
    pub humans: Seq<Entity>,
    pub zombies: Seq<Entity>,
    pub ash: Entity,
    pub score: int,
    pub step: int,
    pub ks: Seq<i32>,
    pub start_step: int,
    pub start_score: int,
}

/// The point brought into the field, coordinate by coordinate.
pub open spec fn in_field(target: Point) -> Point {
    Point { x: clamped(target.x, FIELD_WIDTH), y: clamped(target.y, FIELD_HEIGHT) }
}

/// Where a zombie stands after its move: on its target where it catches it,
/// at `landing` where it steps, and where it stood where it rests.
pub open spec fn zombie_moved(
    zombie: Entity,
    chase: Chase,
    landing: Point,
    humans: Seq<Entity>,
    ash: Entity,
) -> Entity {
    match chase {
        Chase::Rest => zombie,
        Chase::Catch(Target::Human(h)) => zombie.moved_to(humans[h as int].position),
        Chase::Catch(Target::Player) => zombie.moved_to(ash.position),
        Chase::Advance(_, _) => zombie.moved_to(landing),
    }
}

/// Who caught whom: a pair of the index of a human and the index of the zombie
/// that lands on it, for each such zombie, in the order of the zombies. A
/// zombie that lands on the player is in no pair.
pub open spec fn caught(chases: Seq<Chase>) -> Seq<(usize, usize)>
    decreases chases.len(),
{
    if chases.len() == 0 {
        Seq::empty()
    } else {
        let before = caught(chases.drop_last());
        match chases.last() {
            Chase::Catch(Target::Human(h)) => before.push((h, (chases.len() - 1) as usize)),
            _ => before,
        }
    }
}

/// Whether some pair says that a zombie, alive among `zombies`, caught human
/// `h`.
pub open spec fn is_eaten(h: int, zombies: Seq<Entity>, pairs: Seq<(usize, usize)>) -> bool {
    exists|k: int|
        0 <= k < pairs.len() && (#[trigger] pairs[k]).0 == h && zombies[pairs[k].1 as int].alive
}

/// The zombies after the player has struck: a zombie whose squared distance
/// to the player is below the range is dead.
pub open spec fn struck_by_player(zombies: Seq<Entity>, kill_keys: Seq<u64>) -> Seq<Entity> {
    Seq::new(zombies.len(), |z: int| zombies[z].struck(lt(kill_keys[z], KILL_RANGE)))
}

/// The humans after the zombies have eaten.
pub open spec fn eaten_by_zombies(
    humans: Seq<Entity>,
    zombies: Seq<Entity>,
    pairs: Seq<(usize, usize)>,
) -> Seq<Entity> {
    Seq::new(humans.len(), |h: int| humans[h].struck(is_eaten(h, zombies, pairs)))
}

/// The score of a turn with `kills` kills and `humans` living humans.
pub open spec fn gain(kills: nat, humans: nat) -> int {
    (multiplier(kills) * (humans * humans) * 10) as int
}

/// What `zombies` living zombies can still bring, at the most, while
/// `humans` humans live: the largest bonus for each of them.
pub open spec fn stake(zombies: nat, humans: nat) -> int {
    LARGEST_BONUS * 10 * (zombies * (humans * humans))
}

impl GameState {
    /// What each zombie does, given its row of squared distances.
    pub open spec fn chases(self, keys: Seq<Seq<u64>>) -> Seq<Chase> {
        Seq::new(self.zombies.len(), |z: int| chase_of(self.zombies[z], self.humans, keys[z]))
    }

    /// The state after the zombies, then the player, have moved.
    pub open spec fn relocated(
        self,
        chases: Seq<Chase>,
        landings: Seq<Point>,
        target: Point,
    ) -> GameState {
        GameState {
            zombies: Seq::new(
                self.zombies.len(),
                |z: int| zombie_moved(self.zombies[z], chases[z], landings[z], self.humans, self.ash),
            ),
            ash: self.ash.moved_to(in_field(target)),
            ..self
        }
    }

    /// The state at the end of a turn, after the moves: the zombies near the
    /// player are dead, the humans caught by a zombie that is left are dead,
    /// the kills are scored by the humans that are left, and the turn is
    /// counted.
    pub open spec fn settled(self, pairs: Seq<(usize, usize)>, kill_keys: Seq<u64>) -> GameState {
        let zombies = struck_by_player(self.zombies, kill_keys);
        let humans = eaten_by_zombies(self.humans, zombies, pairs);
        let kills = (living(self.zombies) - living(zombies)) as nat;
        GameState {
            humans,
            zombies,
            score: self.score + gain(kills, living(humans)),
            step: self.step + 1,
            ..self
        }
    }

    /// The state after a whole turn. `keys` are the squared distances before
    /// any move, `landings` the points where the steps of the zombies end,
    /// `target` the point the player heads for, and `kill_keys` the squared
    /// distances from the player to the zombies after the moves.
    pub open spec fn turn(
        self,
        keys: Seq<Seq<u64>>,
        landings: Seq<Point>,
        target: Point,
        kill_keys: Seq<u64>,
    ) -> GameState {
        let chases = self.chases(keys);
        self.relocated(chases, landings, target).settled(caught(chases), kill_keys)
    }

    /// Whether the game is over: no human is alive, or no zombie is.
    pub open spec fn is_over(self) -> bool {
        ||| forall|h: int| 0 <= h < self.humans.len() ==> !self.humans[h].alive
        ||| forall|z: int| 0 <= z < self.zombies.len() ==> !self.zombies[z].alive
    }

    /// What is still to be had if every living zombie is killed in a turn of
    /// its own and no human dies.
    pub open spec fn possible_score(self) -> int {
        (living(self.zombies) * (living(self.humans) * living(self.humans)) * 10) as int
    }

    /// The state after `reset`: every actor is back where it started, and the
    /// score and the count of turns are what they were at the last snapshot.
    /// Who is alive stays as it is.
    pub open spec fn rewound(self) -> GameState {
        GameState {
            humans: Seq::new(self.humans.len(), |i: int| self.humans[i].rewound()),
            zombies: Seq::new(self.zombies.len(), |i: int| self.zombies[i].rewound()),
            ash: self.ash.rewound(),
            score: self.start_score,
            step: self.start_step,
            ..self
        }
    }

    /// A copy of the state that is its own snapshot: `reset` on the copy goes
    /// back to the score and the count of turns of now.
    pub open spec fn snapshot(self) -> GameState {
        GameState { start_step: self.step, start_score: self.score, ..self }
    }

    /// What the living zombies can still bring, at the most.
    pub open spec fn reserve(self) -> int {
        stake(living(self.zombies), living(self.humans))
    }

    /// Whether the state is well formed: the table of bonuses is the right
    /// one, and the score is at least what `reset` goes back to, which is not
    /// negative, and leaves room for all that can still be scored.
    pub open spec fn wf(self) -> bool {
        &&& self.ks == table()
        &&& 0 <= self.start_score <= self.score
        &&& self.score + self.reserve() <= i64::MAX
    }
}

/// A turn revives nobody: an actor that is alive after it was alive before
/// it. So no more humans and no more zombies are alive after a turn than
/// before it, and a game that is over stays over.
pub proof fn turn_revives_nobody(
    state: GameState,
    keys: Seq<Seq<u64>>,
    landings: Seq<Point>,
    target: Point,
    kill_keys: Seq<u64>,
)
    ensures
        none_revived(state.humans, state.turn(keys, landings, target, kill_keys).humans),
        none_revived(state.zombies, state.turn(keys, landings, target, kill_keys).zombies),
        living(state.turn(keys, landings, target, kill_keys).humans) <= living(state.humans),
        living(state.turn(keys, landings, target, kill_keys).zombies) <= living(state.zombies),
        state.is_over() ==> state.turn(keys, landings, target, kill_keys).is_over(),
{
    let after = state.turn(keys, landings, target, kill_keys);
    living_does_not_grow(state.humans, after.humans);
    living_does_not_grow(state.zombies, after.zombies);
}

/// A turn never lowers the score, and a state that is well formed stays so:
/// its score is not negative and leaves room for all that can still be
/// scored.
pub proof fn turn_never_lowers_the_score(
    state: GameState,
    keys: Seq<Seq<u64>>,
    landings: Seq<Point>,
    target: Point,
    kill_keys: Seq<u64>,
)
    ensures
        state.score <= state.turn(keys, landings, target, kill_keys).score,
        state.wf() ==> state.turn(keys, landings, target, kill_keys).wf(),
        state.wf() ==> 0 <= state.score,
{
    let chases = state.chases(keys);
    let moved = state.relocated(chases, landings, target);
    living_does_not_grow(state.zombies, moved.zombies);
    living_does_not_grow(moved.zombies, state.zombies);
    settling_keeps_a_game_sound(moved, caught(chases), kill_keys);
}

/// A turn leaves every actor its identity and the point where it started,
/// moves no human, leaves the player as alive as it was, and counts one turn.
pub proof fn turn_keeps_what_actors_are(
    state: GameState,
    keys: Seq<Seq<u64>>,
    landings: Seq<Point>,
    target: Point,
    kill_keys: Seq<u64>,
)
    ensures
        ({
            let after = state.turn(keys, landings, target, kill_keys);
            &&& after.humans.len() == state.humans.len()
            &&& after.zombies.len() == state.zombies.len()
            &&& forall|h: int|
                0 <= h < state.humans.len() ==> (#[trigger] after.humans[h]).id == state.humans[h].id
                    && after.humans[h].start_position == state.humans[h].start_position
                    && after.humans[h].position == state.humans[h].position
            &&& forall|z: int|
                0 <= z < state.zombies.len() ==> (#[trigger] after.zombies[z]).id
                    == state.zombies[z].id && after.zombies[z].start_position
                    == state.zombies[z].start_position
            &&& after.ash.id == state.ash.id
            &&& after.ash.start_position == state.ash.start_position
            &&& after.ash.alive == state.ash.alive
            &&& after.ks == state.ks
            &&& after.start_score == state.start_score
            &&& after.start_step == state.start_step
            &&& after.step == state.step + 1
        }),
{
}

/// After a turn the player stands in the field: each of its coordinates is a
/// number from zero to the largest of the field.
pub proof fn turn_keeps_the_player_in_the_field(
    state: GameState,
    keys: Seq<Seq<u64>>,
    landings: Seq<Point>,
    target: Point,
    kill_keys: Seq<u64>,
)
    ensures
        ({
            let at = state.turn(keys, landings, target, kill_keys).ash.position;
            &&& at == in_field(target)
            &&& !is_nan(at.x) && 0 <= rank(at.x) <= rank(FIELD_WIDTH)
            &&& !is_nan(at.y) && 0 <= rank(at.y) <= rank(FIELD_HEIGHT)
        }),
{
}

/// Putting a game back twice is putting it back once.
pub proof fn reset_is_idempotent(state: GameState)
    ensures
        state.rewound().rewound() == state.rewound(),
{
    let once = state.rewound();
    let twice = once.rewound();
    assert(twice.humans =~= once.humans);
    assert(twice.zombies =~= once.zombies);
}

/// A zombie that catches a human and dies in the same turn does not eat it:
/// a human of which every catcher is within the range of the player is as
/// alive after the end of the turn as before it.
pub proof fn the_dead_do_not_eat(
    state: GameState,
    pairs: Seq<(usize, usize)>,
    kill_keys: Seq<u64>,
    h: int,
)
    requires
        0 <= h < state.humans.len(),
        forall|k: int|
            0 <= k < pairs.len() && (#[trigger] pairs[k]).0 == h ==> 0 <= pairs[k].1
                < state.zombies.len() && lt(kill_keys[pairs[k].1 as int], KILL_RANGE),
    ensures
        state.settled(pairs, kill_keys).humans[h].alive == state.humans[h].alive,
{
}

/// The end of a turn revives nobody and never lowers the score, and a state
/// that is well formed stays so: its score fits, is not negative, and leaves
/// room for all that can still be scored.
pub proof fn settling_keeps_a_game_sound(
    state: GameState,
    pairs: Seq<(usize, usize)>,
    kill_keys: Seq<u64>,
)
    ensures
        none_revived(state.humans, state.settled(pairs, kill_keys).humans),
        none_revived(state.zombies, state.settled(pairs, kill_keys).zombies),
        state.score <= state.settled(pairs, kill_keys).score,
        state.wf() ==> state.settled(pairs, kill_keys).wf(),
        state.wf() ==> state.settled(pairs, kill_keys).score <= i64::MAX,
{
    let after = state.settled(pairs, kill_keys);
    living_does_not_grow(state.humans, after.humans);
    living_does_not_grow(state.zombies, after.zombies);
    gain_is_within_stake(
        (living(state.zombies) - living(after.zombies)) as nat,
        living(after.zombies),
        living(after.humans),
        living(state.humans),
    );
    stake_is_monotonic(0, 0, living(after.zombies), living(after.humans));
}

/// What is still to be had is within the room that a well formed state
/// leaves: added to the score, it fits.
pub proof fn what_is_to_be_had_fits(state: GameState)
    requires
        state.wf(),
    ensures
        0 <= state.possible_score(),
        state.score + state.possible_score() <= i64::MAX,
{
    let z = living(state.zombies) as int;
    let h = living(state.humans) as int;
    let sq = h * h;
    assert(0 <= z * sq * 10 <= LARGEST_BONUS * 10 * (z * sq)) by (nonlinear_arith)
        requires
            0 <= z,
            sq == h * h,
            LARGEST_BONUS == 1346268,
    ;
}

/// More zombies or more humans never make the stake smaller, and it is never
/// negative.
pub proof fn stake_is_monotonic(z1: nat, h1: nat, z2: nat, h2: nat)
    requires
        z1 <= z2,
        h1 <= h2,
    ensures
        0 <= stake(z1, h1) <= stake(z2, h2),
{
    assert(h1 * h1 <= h2 * h2) by (nonlinear_arith)
        requires
            h1 <= h2,
    ;
    let a = (z1 * (h1 * h1)) as int;
    let b = (z2 * (h2 * h2)) as int;
    assert(0 <= a <= b) by (nonlinear_arith)
        requires
            z1 <= z2,
            h1 * h1 <= h2 * h2,
            a == z1 * (h1 * h1),
            b == z2 * (h2 * h2),
    ;
    assert(0 <= LARGEST_BONUS * 10 * a <= LARGEST_BONUS * 10 * b) by (nonlinear_arith)
        requires
            0 <= a <= b,
            LARGEST_BONUS == 1346268,
    ;
}

/// What a turn scores, and what can be scored after it, is within what could
/// be scored before it.
pub proof fn gain_is_within_stake(kills: nat, zombies_left: nat, humans_left: nat, humans: nat)
    requires
        humans_left <= humans,
    ensures
        0 <= gain(kills, humans_left),
        kills == 0 ==> gain(kills, humans_left) == 0,
        gain(kills, humans_left) + stake(zombies_left, humans_left) <= stake(
            kills + zombies_left,
            humans,
        ),
{
    multiplier_is_bounded(kills);
    let m = multiplier(kills) as int;
    let sq = (humans_left * humans_left) as int;
    let big = (humans * humans) as int;
    assert(0 <= sq <= big) by (nonlinear_arith)
        requires
            0 <= humans_left <= humans,
            sq == humans_left * humans_left,
            big == humans * humans,
    ;
    if kills == 0 {
        assert(m * sq * 10 == 0) by (nonlinear_arith)
            requires
                m == 0,
        ;
        stake_is_monotonic(zombies_left, humans_left, zombies_left, humans);
    } else {
        assert(0 <= m * sq * 10 <= LARGEST_BONUS * 10 * (kills * big)) by (nonlinear_arith)
            requires
                0 <= m <= LARGEST_BONUS,
                1 <= kills,
                0 <= sq <= big,
        ;
        assert(LARGEST_BONUS * 10 * (zombies_left * sq) <= LARGEST_BONUS * 10 * (zombies_left * big))
            by (nonlinear_arith)
            requires
                0 <= sq <= big,
                0 <= zombies_left,
        ;
        assert(LARGEST_BONUS * 10 * (kills * big) + LARGEST_BONUS * 10 * (zombies_left * big)
            == LARGEST_BONUS * 10 * ((kills + zombies_left) * big)) by (nonlinear_arith);
    }
}

/// Whether human `h` is eaten according to the first `n + 1` pairs: according
/// to the first `n`, or according to pair `n`.
pub proof fn is_eaten_by_one_more(h: int, zombies: Seq<Entity>, pairs: Seq<(usize, usize)>, n: int)
    requires
        0 <= n < pairs.len(),
    ensures
        is_eaten(h, zombies, pairs.take(n + 1)) <==> is_eaten(h, zombies, pairs.take(n)) || (
        pairs[n].0 == h && zombies[pairs[n].1 as int].alive),
{
    let longer = pairs.take(n + 1);
    let shorter = pairs.take(n);
    if is_eaten(h, zombies, longer) {
        let k = choose|k: int|
            0 <= k < longer.len() && (#[trigger] longer[k]).0 == h && zombies[longer[k].1 as int].alive;
        if k < n {
            assert(shorter[k] == longer[k]);
        }
    }
    if is_eaten(h, zombies, shorter) {
        let k = choose|k: int|
            0 <= k < shorter.len() && (#[trigger] shorter[k]).0 == h
                && zombies[shorter[k].1 as int].alive;
        assert(longer[k] == shorter[k]);
    }
    if pairs[n].0 == h && zombies[pairs[n].1 as int].alive {
        assert(longer[n] == pairs[n]);
    }
}

/// Putting the actors back where they started changes nothing about who is
/// alive.
pub proof fn rewinding_keeps_the_living(actors: Seq<Entity>)
    ensures
        living(Seq::new(actors.len(), |i: int| actors[i].rewound())) == living(actors),
    decreases actors.len(),
{
    let back = Seq::new(actors.len(), |i: int| actors[i].rewound());
    if actors.len() > 0 {
        let front = actors.drop_last();
        rewinding_keeps_the_living(front);
        assert(back.drop_last() =~= Seq::new(front.len(), |i: int| front[i].rewound()));
    }
}

} // verus!
