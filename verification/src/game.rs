//! A game and the parts of a turn.
//!
//! A turn has three parts, and the caller measures before each:
//!
//! 1. `choose_targets` takes the squared distances from each zombie to the
//!    humans and the player and says what each zombie does.
//! 2. `relocate` takes, for each zombie that steps, the point where its step
//!    ends, and the point the player heads for. It moves the zombies, then the
//!    player, and returns who caught whom.
//! 3. `settle` takes the squared distances from the player to each zombie. It
//!    kills the zombies near the player, lets the zombies that are left eat
//!    the humans they caught, and counts the score and the turn.

use vstd::prelude::*;
use crate::entity::{Entity, living, none_revived, count_living, copy_actors, living_is_zero};
use crate::number::{lt, less, clamp};
use crate::point::Point;
use crate::pursuit::{Chase, Target, chase_of, decide};
use crate::score::{
    bonus, bonus_is_fib_less_one, fib, fib_is_monotonic, fib_values, multiplier,
    multiplier_is_bounded, table, BEYOND_TABLE, LARGEST_BONUS,
};
use crate::state::{
    GameState, KILL_RANGE, FIELD_WIDTH, FIELD_HEIGHT, caught, eaten_by_zombies, gain, in_field,
    is_eaten, is_eaten_by_one_more, rewinding_keeps_the_living, settling_keeps_a_game_sound,
    stake, struck_by_player, zombie_moved,
};

verus! {

/// A game: the actors, the score and the count of turns played, the table of
/// bonuses, and the score and the count to which `reset` goes back.
#[derive(Debug)]
pub struct Game {
    pub humans: Vec<Entity>,
    pub zombies: Vec<Entity>,
    pub ash: Entity,
    pub score: i64,
    pub step: i32,
    pub ks: [i32; 30],
    pub start_step: i32,
    pub start_score: i64,
}

impl View for Game {
    type V = GameState;

    open spec fn view(&self) -> GameState {
        GameState {
            humans: self.humans@,
            zombies: self.zombies@,
            ash: self.ash,
            score: self.score as int,
            step: self.step as int,
            ks: self.ks@,
            start_step: self.start_step as int,
            start_score: self.start_score as int,
        }
    }
}

/// The rows of squared distances, one for each zombie.
pub open spec fn rows(keys: &Vec<Vec<u64>>) -> Seq<Seq<u64>> {
    Seq::new(keys.len() as nat, |z: int| keys[z]@)
}

impl Game {
    /// A game at its start: nothing scored, no turn played.
    pub fn new(humans: Vec<Entity>, zombies: Vec<Entity>, ash: Entity) -> (game: Game)
        ensures
            game@ == (GameState {
                humans: humans@,
                zombies: zombies@,
                ash,
                score: 0,
                step: 0,
                ks: table(),
                start_step: 0,
                start_score: 0,
            }),
    {
        Game {
            humans,
            zombies,
            ash,
            score: 0,
            step: 0,
            start_step: 0,
            start_score: 0,
            ks: Game::get_fib_array(),
        }
    }

    /// Builds the table of bonuses: the running sums of the first 30
    /// Fibonacci numbers.
    pub fn get_fib_array() -> (sums: [i32; 30])
        ensures
            sums@ == table(),
    {
        let mut ks: [i32; 30] = [0;30];
        let mut sumks: [i32; 30] = [0;30];
        ks[1] = 1;
        proof {
            fib_values();
        }
        let mut i: usize = 2;
        while i < 30
            invariant
                2 <= i <= 30,
                forall|j: int| 0 <= j < i ==> ks[j] == fib(j as nat),
            decreases 30 - i,
        {
            proof {
                fib_values();
                fib_is_monotonic(i as nat, 30);
                assert(fib(i as nat) == fib((i - 1) as nat) + fib((i - 2) as nat));
            }
            ks[i] = ks[i - 1] + ks[i - 2];
            i = i + 1;
        }
        let mut i: usize = 1;
        proof {
            assert(bonus(0) == 0);
        }
        while i < 30
            invariant
                1 <= i <= 30,
                forall|j: int| 0 <= j < 30 ==> ks[j] == fib(j as nat),
                forall|j: int| 0 <= j < i ==> sumks[j] == bonus(j as nat),
            decreases 30 - i,
        {
            proof {
                fib_values();
                bonus_is_fib_less_one(i as nat);
                fib_is_monotonic((i + 2) as nat, 31);
                assert(bonus(i as nat) == bonus((i - 1) as nat) + fib(i as nat));
            }
            sumks[i] = sumks[i - 1] + ks[i];
            i = i + 1;
        }
        proof {
            assert forall|k: int| 0 <= k < 30 implies sumks@[k] == table()[k] by {
                fib_values();
                bonus_is_fib_less_one(k as nat);
                fib_is_monotonic((k + 2) as nat, 31);
            }
            assert(sumks@ =~= table());
        }
        sumks
    }

    /// Says what each zombie does this turn. `keys[z]` is the row of zombie
    /// `z`: its squared distance to each human, in the order of the humans,
    /// and last that to the player. The row of a dead zombie is not read.
    pub fn choose_targets(&self, keys: &Vec<Vec<u64>>) -> (chases: Vec<Chase>)
        requires
            keys.len() == self.zombies.len(),
            forall|z: int|
                0 <= z < self.zombies.len() && self.zombies[z].alive ==> (#[trigger] keys[z]).len()
                    == self.humans.len() + 1,
        ensures
            chases@ == self@.chases(rows(keys)),
            forall|z: int| 0 <= z < chases.len() ==> (#[trigger] chases[z]).in_range(self.humans@.len()),
    {
        let mut chases: Vec<Chase> = Vec::new();
        let mut z: usize = 0;
        while z < self.zombies.len()
            invariant
                z <= self.zombies.len(),
                keys.len() == self.zombies.len(),
                forall|k: int|
                    0 <= k < self.zombies.len() && self.zombies[k].alive ==> (#[trigger] keys[k]).len()
                        == self.humans.len() + 1,
                chases.len() == z,
                forall|k: int|
                    0 <= k < z ==> #[trigger] chases[k] == chase_of(
                        self.zombies[k],
                        self.humans@,
                        keys[k]@,
                    ),
                forall|k: int| 0 <= k < z ==> (#[trigger] chases[k]).in_range(self.humans@.len()),
            decreases self.zombies.len() - z,
        {
            let chase = decide(&self.zombies[z], &self.humans, &keys[z]);
            chases.push(chase);
            z = z + 1;
        }
        proof {
            assert(chases@ =~= self@.chases(rows(keys)));
        }
        chases
    }

    /// Moves the zombies as `chases` says.
    fn move_zombies(&mut self, chases: &Vec<Chase>, landings: &Vec<Point>) -> (pairs: Vec<
        (usize, usize),
    >)
        requires
            chases.len() == old(self).zombies.len(),
            landings.len() == old(self).zombies.len(),
            forall|z: int|
                0 <= z < chases.len() ==> (#[trigger] chases[z]).in_range(old(self).humans@.len()),
        ensures
            final(self)@ == (GameState {
                zombies: old(self)@.relocated(chases@, landings@, old(self).ash.position).zombies,
                ..old(self)@
            }),
            pairs@ == caught(chases@),
    {
        let mut pairs: Vec<(usize, usize)> = Vec::new();
        let mut z: usize = 0;
        while z < self.zombies.len()
            invariant
                z <= self.zombies.len(),
                self.zombies.len() == old(self).zombies.len(),
                chases.len() == self.zombies.len(),
                landings.len() == self.zombies.len(),
                forall|k: int|
                    0 <= k < chases.len() ==> (#[trigger] chases[k]).in_range(self.humans@.len()),
                self.humans == old(self).humans,
                self.ash == old(self).ash,
                self.score == old(self).score,
                self.step == old(self).step,
                self.ks == old(self).ks,
                self.start_step == old(self).start_step,
                self.start_score == old(self).start_score,
                forall|k: int|
                    0 <= k < z ==> #[trigger] self.zombies[k] == zombie_moved(
                        old(self).zombies[k],
                        chases[k],
                        landings[k],
                        self.humans@,
                        self.ash,
                    ),
                forall|k: int| z <= k < self.zombies.len() ==> self.zombies[k] == old(self).zombies[k],
                pairs@ == caught(chases@.take(z as int)),
            decreases self.zombies.len() - z,
        {
            proof {
                assert(chases@.take(z + 1).drop_last() =~= chases@.take(z as int));
            }
            match chases[z] {
                Chase::Rest => {},
                Chase::Catch(Target::Human(h)) => {
                    self.zombies[z].position = self.humans[h].position;
                    pairs.push((h, z));
                },
                Chase::Catch(Target::Player) => {
                    self.zombies[z].position = self.ash.position;
                },
                Chase::Advance(_, _) => {
                    self.zombies[z].position = landings[z];
                },
            }
            z = z + 1;
        }
        proof {
            assert(chases@.take(z as int) =~= chases@);
            assert(self.zombies@ =~= old(self)@.relocated(
                chases@,
                landings@,
                old(self).ash.position,
            ).zombies);
        }
        pairs
    }

    /// Moves the player to `target`, brought into the field.
    fn move_ash(&mut self, target: Point)
        ensures
            final(self)@ == (GameState {
                ash: old(self).ash.moved_to(in_field(target)),
                ..old(self)@
            }),
    {
        let x = clamp(target.x, FIELD_WIDTH);
        let y = clamp(target.y, FIELD_HEIGHT);
        self.ash.position = Point { x, y };
    }

    /// Moves the zombies, then the player. A zombie that catches its target
    /// lands on it, where the target stands before the player moves; one that
    /// steps goes to `landings[z]`; the others stay. The player goes to
    /// `target`, brought into the field. Returns who caught whom.
    pub fn relocate(&mut self, chases: &Vec<Chase>, landings: &Vec<Point>, target: Point) -> (pairs:
        Vec<(usize, usize)>)
        requires
            chases.len() == old(self).zombies.len(),
            landings.len() == old(self).zombies.len(),
            forall|z: int|
                0 <= z < chases.len() ==> (#[trigger] chases[z]).in_range(old(self).humans@.len()),
        ensures
            final(self)@ == old(self)@.relocated(chases@, landings@, target),
            pairs@ == caught(chases@),
    {
        let pairs = self.move_zombies(chases, landings);
        self.move_ash(target);
        pairs
    }

    /// Kills every living zombie whose squared distance to the player is below
    /// the range, and counts them.
    fn kill_zombies(&mut self, kill_keys: &Vec<u64>) -> (killed: usize)
        requires
            kill_keys.len() == old(self).zombies.len(),
        ensures
            final(self)@ == (GameState {
                zombies: struck_by_player(old(self).zombies@, kill_keys@),
                ..old(self)@
            }),
            killed == living(old(self).zombies@) - living(final(self).zombies@),
    {
        let mut killed: usize = 0;
        let mut z: usize = 0;
        while z < self.zombies.len()
            invariant
                z <= self.zombies.len(),
                self.zombies.len() == old(self).zombies.len(),
                kill_keys.len() == self.zombies.len(),
                self.humans == old(self).humans,
                self.ash == old(self).ash,
                self.score == old(self).score,
                self.step == old(self).step,
                self.ks == old(self).ks,
                self.start_step == old(self).start_step,
                self.start_score == old(self).start_score,
                forall|k: int|
                    0 <= k < z ==> #[trigger] self.zombies[k] == old(self).zombies[k].struck(
                        lt(kill_keys[k], KILL_RANGE),
                    ),
                forall|k: int| z <= k < self.zombies.len() ==> self.zombies[k] == old(self).zombies[k],
                killed <= z,
                killed + living(self.zombies@.take(z as int)) == living(
                    old(self).zombies@.take(z as int),
                ),
            decreases self.zombies.len() - z,
        {
            let ghost before = self.zombies@;
            if self.zombies[z].alive && less(kill_keys[z], KILL_RANGE) {
                self.zombies[z].alive = false;
                killed = killed + 1;
            }
            proof {
                let now = self.zombies@;
                let was = old(self).zombies@;
                assert(now.take(z + 1).drop_last() =~= before.take(z as int));
                assert(was.take(z + 1).drop_last() =~= was.take(z as int));
            }
            z = z + 1;
        }
        proof {
            assert(self.zombies@.take(z as int) =~= self.zombies@);
            assert(old(self).zombies@.take(z as int) =~= old(self).zombies@);
            assert(self.zombies@ =~= struck_by_player(old(self).zombies@, kill_keys@));
        }
        killed
    }

    /// Kills every human that a living zombie caught.
    fn kill_humans(&mut self, pairs: &Vec<(usize, usize)>)
        requires
            forall|k: int|
                0 <= k < pairs.len() ==> (#[trigger] pairs[k]).0 < old(self).humans.len() && pairs[k].1
                    < old(self).zombies.len(),
        ensures
            final(self)@ == (GameState {
                humans: eaten_by_zombies(old(self).humans@, old(self).zombies@, pairs@),
                ..old(self)@
            }),
    {
        let mut i: usize = 0;
        while i < pairs.len()
            invariant
                i <= pairs.len(),
                forall|k: int|
                    0 <= k < pairs.len() ==> (#[trigger] pairs[k]).0 < self.humans.len() && pairs[k].1
                        < self.zombies.len(),
                self.humans.len() == old(self).humans.len(),
                self.zombies == old(self).zombies,
                self.ash == old(self).ash,
                self.score == old(self).score,
                self.step == old(self).step,
                self.ks == old(self).ks,
                self.start_step == old(self).start_step,
                self.start_score == old(self).start_score,
                forall|h: int|
                    0 <= h < self.humans.len() ==> #[trigger] self.humans[h] == old(
                        self,
                    ).humans[h].struck(is_eaten(h, self.zombies@, pairs@.take(i as int))),
            decreases pairs.len() - i,
        {
            let (h, z) = pairs[i];
            proof {
                assert forall|j: int| 0 <= j < self.humans.len() implies is_eaten(
                    j,
                    self.zombies@,
                    pairs@.take(i + 1),
                ) == (is_eaten(j, self.zombies@, pairs@.take(i as int)) || (j == h
                    && self.zombies[z as int].alive)) by {
                    is_eaten_by_one_more(j, self.zombies@, pairs@, i as int);
                }
            }
            if self.zombies[z].alive {
                self.humans[h].alive = false;
            }
            i = i + 1;
        }
        proof {
            assert(pairs@.take(i as int) =~= pairs@);
            assert(self.humans@ =~= eaten_by_zombies(old(self).humans@, old(self).zombies@, pairs@));
        }
    }

    /// Adds to the score what a turn with `killed` kills brings.
    fn update_score(&mut self, killed: usize)
        requires
            old(self).ks@ == table(),
            0 <= old(self).score,
            old(self).score + gain(killed as nat, living(old(self).humans@)) <= i64::MAX,
        ensures
            final(self)@ == (GameState {
                score: old(self).score + gain(killed as nat, living(old(self).humans@)),
                ..old(self)@
            }),
    {
        let alive = count_living(&self.humans);
        proof {
            multiplier_is_bounded(killed as nat);
        }
        if killed > 0 {
            let bonus: i64 = if killed < 30 {
                self.ks[killed] as i64
            } else {
                BEYOND_TABLE as i64
            };
            let ghost m = multiplier(killed as nat) as int;
            let ghost sq = (alive * alive) as int;
            proof {
                assert(bonus == m);
                assert(0 <= alive <= sq && sq * 10 <= m * sq * 10 && m * sq <= m * sq * 10) by (nonlinear_arith)
                    requires
                        1 <= m,
                        0 <= alive,
                        sq == alive * alive,
                ;
            }
            let heads = alive as i64;
            self.score = self.score + bonus * (heads * heads) * 10;
        } else {
            proof {
                let m = multiplier(killed as nat) as int;
                let sq = (alive * alive) as int;
                assert(m * sq * 10 == 0) by (nonlinear_arith)
                    requires
                        m == 0,
                ;
            }
        }
    }

    /// Ends the turn. Every living zombie whose squared distance to the
    /// player, `kill_keys[z]`, is below the range dies. Then every human in a
    /// pair with a zombie that is still alive dies. Then the kills are scored
    /// by the humans that are left, and the turn is counted. The new score and
    /// the new count must fit; the score of a well formed game does.
    pub fn settle(&mut self, pairs: Vec<(usize, usize)>, kill_keys: &Vec<u64>)
        requires
            old(self).ks@ == table(),
            0 <= old(self).score,
            old(self)@.settled(pairs@, kill_keys@).score <= i64::MAX,
            old(self).step < i32::MAX,
            kill_keys.len() == old(self).zombies.len(),
            forall|k: int|
                0 <= k < pairs.len() ==> (#[trigger] pairs[k]).0 < old(self).humans.len() && pairs[k].1
                    < old(self).zombies.len(),
        ensures
            final(self)@ == old(self)@.settled(pairs@, kill_keys@),
            old(self)@.wf() ==> final(self)@.wf(),
            none_revived(old(self).humans@, final(self).humans@),
            none_revived(old(self).zombies@, final(self).zombies@),
            old(self).score <= final(self).score,
    {
        proof {
            settling_keeps_a_game_sound(old(self)@, pairs@, kill_keys@);
        }
        let killed = self.kill_zombies(kill_keys);
        self.kill_humans(&pairs);
        self.update_score(killed);
        self.step = self.step + 1;
    }

    /// Whether the game is over: no human is alive, or no zombie is.
    pub fn is_over(&self) -> (over: bool)
        ensures
            over == self@.is_over(),
    {
        proof {
            living_is_zero(self@.humans);
            living_is_zero(self@.zombies);
        }
        if count_living(&self.humans) == 0 {
            true
        } else {
            count_living(&self.zombies) == 0
        }
    }

    /// What is still to be had if every living zombie is killed in a turn of
    /// its own and no human dies: ten times the number of living zombies times
    /// the square of the number of living humans. It must fit; in a well
    /// formed game it does, and the score added to it too.
    pub fn possible_score(&self) -> (score: i64)
        requires
            self@.possible_score() <= i64::MAX,
        ensures
            score == self@.possible_score(),
    {
        let zombies = count_living(&self.zombies);
        let humans = count_living(&self.humans);
        if zombies == 0 || humans == 0 {
            proof {
                let z = zombies as int;
                let h = humans as int;
                assert(z * (h * h) * 10 == 0) by (nonlinear_arith)
                    requires
                        z == 0 || h == 0,
                ;
            }
            0
        } else {
            let ghost z = zombies as int;
            let ghost sq = (humans * humans) as int;
            proof {
                assert(humans <= sq && sq <= z * sq && z <= z * sq && 0 <= z * sq <= z * sq * 10)
                    by (nonlinear_arith)
                    requires
                        1 <= z,
                        1 <= humans,
                        sq == humans * humans,
                ;
            }
            let z = zombies as i64;
            let h = humans as i64;
            z * (h * h) * 10
        }
    }

    /// Puts every actor back where it started and the score and the count of
    /// turns back to what they were when the game was made or last cloned.
    /// Whether an actor is alive stays as it is.
    pub fn reset(&mut self)
        ensures
            final(self)@ == old(self)@.rewound(),
            old(self)@.wf() ==> final(self)@.wf(),
            living(final(self).humans@) == living(old(self).humans@),
            living(final(self).zombies@) == living(old(self).zombies@),
    {
        let mut i: usize = 0;
        while i < self.humans.len()
            invariant
                i <= self.humans.len(),
                self.humans.len() == old(self).humans.len(),
                self.zombies == old(self).zombies,
                self.ash == old(self).ash,
                self.score == old(self).score,
                self.step == old(self).step,
                self.ks == old(self).ks,
                self.start_step == old(self).start_step,
                self.start_score == old(self).start_score,
                forall|k: int| 0 <= k < i ==> #[trigger] self.humans[k] == old(self).humans[k].rewound(),
                forall|k: int| i <= k < self.humans.len() ==> self.humans[k] == old(self).humans[k],
            decreases self.humans.len() - i,
        {
            self.humans[i].reset();
            i = i + 1;
        }
        let mut i: usize = 0;
        while i < self.zombies.len()
            invariant
                i <= self.zombies.len(),
                self.zombies.len() == old(self).zombies.len(),
                self.humans@ == old(self)@.rewound().humans,
                self.ash == old(self).ash,
                self.score == old(self).score,
                self.step == old(self).step,
                self.ks == old(self).ks,
                self.start_step == old(self).start_step,
                self.start_score == old(self).start_score,
                forall|k: int|
                    0 <= k < i ==> #[trigger] self.zombies[k] == old(self).zombies[k].rewound(),
                forall|k: int| i <= k < self.zombies.len() ==> self.zombies[k] == old(self).zombies[k],
            decreases self.zombies.len() - i,
        {
            self.zombies[i].reset();
            i = i + 1;
        }
        self.ash.reset();
        self.score = self.start_score;
        self.step = self.start_step;
        proof {
            assert(self.zombies@ =~= old(self)@.rewound().zombies);
            rewinding_keeps_the_living(old(self).humans@);
            rewinding_keeps_the_living(old(self).zombies@);
        }
    }

    /// Whether the game is well formed.
    pub fn is_sound(&self) -> (sound: bool)
        ensures
            sound == self@.wf(),
    {
        let right = Game::get_fib_array();
        let mut k: usize = 0;
        while k < 30
            invariant
                k <= 30,
                right@ == table(),
                forall|j: int| 0 <= j < k ==> self.ks[j] == right[j],
            decreases 30 - k,
        {
            if self.ks[k] != right[k] {
                return false;
            }
            k = k + 1;
        }
        proof {
            assert(self.ks@ =~= right@);
        }
        if self.start_score < 0 || self.start_score > self.score {
            return false;
        }
        has_room(self.score, count_living(&self.zombies), count_living(&self.humans))
    }
}

/// Whether a score leaves room for the stake of so many living zombies and
/// humans.
fn has_room(score: i64, zombies: usize, humans: usize) -> (room: bool)
    requires
        0 <= score,
    ensures
        room == (score + stake(zombies as nat, humans as nat) <= i64::MAX),
{
    let ghost z = zombies as int;
    let ghost h = humans as int;
    let ghost sq = h * h;
    if zombies == 0 || humans == 0 {
        proof {
            assert(z * (h * h) == 0) by (nonlinear_arith)
                requires
                    z == 0 || h == 0,
            ;
        }
        return true;
    }
    if humans as u64 > 0x7FFF_FFFF || zombies as u64 > 0xFF_FFFF_FFFF {
        proof {
            assert(LARGEST_BONUS * 10 * (z * sq) > i64::MAX) by (nonlinear_arith)
                requires
                    LARGEST_BONUS == 1346268,
                    sq == h * h,
                    (h > 0x7FFF_FFFF && z >= 1) || (z > 0xFF_FFFF_FFFF && h >= 1),
            ;
        }
        return false;
    }
    proof {
        assert(0 <= sq <= 4611686014132420609) by (nonlinear_arith)
            requires
                sq == h * h,
                1 <= h <= 0x7FFF_FFFF,
        ;
        assert(0 <= z * sq <= 5070602396185939438202546814975) by (nonlinear_arith)
            requires
                0 <= sq <= 4611686014132420609,
                1 <= z <= 0xFF_FFFF_FFFF,
        ;
    }
    let square: u128 = (humans as u128) * (humans as u128);
    let heads: u128 = (zombies as u128) * square;
    assert(heads == z * sq && heads <= 5070602396185939438202546814975);
    assert(13462680 * heads <= u128::MAX) by (nonlinear_arith)
        requires
            heads <= 5070602396185939438202546814975,
    ;
    let needed: u128 = 13462680 * heads;
    needed <= (i64::MAX - score) as u128
}

impl Clone for Game {
    /// A copy of the game that is its own snapshot: `reset` on the copy goes
    /// back to the score and the count of turns of now.
    fn clone(&self) -> (copy: Game)
        ensures
            copy@ == self@.snapshot(),
            self@.wf() ==> copy@.wf(),
    {
        Game {
            humans: copy_actors(&self.humans),
            zombies: copy_actors(&self.zombies),
            ash: self.ash,
            score: self.score,
            step: self.step,
            start_step: self.step,
            start_score: self.score,
            ks: self.ks,
        }
    }
}

/// Two games in the same state are in the same state after a turn with the
/// same measures: a turn depends on nothing else.
pub proof fn turn_is_deterministic(
    a: Game,
    b: Game,
    keys: Seq<Seq<u64>>,
    landings: Seq<Point>,
    target: Point,
    kill_keys: Seq<u64>,
)
    requires
        a@ == b@,
    ensures
        a@.chases(keys) == b@.chases(keys),
        a@.turn(keys, landings, target, kill_keys) == b@.turn(keys, landings, target, kill_keys),
{
}

} // verus!
