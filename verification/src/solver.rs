//! The planner: it plays random rollouts from the state it was given and
//! keeps the best.
//!
//! A rollout is a run of random moves, at most `depth` of them, that ends
//! early when the game is over. It is worth the score it reached plus what is
//! still to be had. The planner keeps the rollout that is worth most, and of
//! two that are worth the same the shorter one; after each rollout it puts
//! its game back. When its budget of rollouts is used up, the first move of
//! the best rollout is the move to make.
//!
//! The planner does not play the moves on its game itself: it hands out one
//! move at a time, and the caller plays the turn on `game` (see the parts of a
//! turn in `game`) before it asks for the next one.

use vstd::prelude::*;
use rand::Rng;
use rand::rngs::ThreadRng;
use crate::game::Game;
use crate::state::{GameState, what_is_to_be_had_fits};

verus! {

/// A move of the player: how far, and in which direction. The radius is a
/// number, the angle a number of radians, each held by its bit pattern.
#[derive(Clone, Copy, Debug)]
pub struct Action {
    pub radius: u64,
    pub angle: u64,
}

/// The radius of a random move: `step` times 500.
pub open spec fn radius_of(step: int) -> u64 {
    if step == 1 {
        0x407F_4000_0000_0000
    } else if step == 2 {
        0x408F_4000_0000_0000
    } else if step == 3 {
        0x4097_7000_0000_0000
    } else {
        0x409F_4000_0000_0000
    }
}

/// The angle of a random move: `step` times 45 degrees, in radians.
pub open spec fn bearing_of(step: int) -> u64 {
    if step == 0 {
        0
    } else if step == 1 {
        0x3FE9_21FB_5444_2D18
    } else if step == 2 {
        0x3FF9_21FB_5444_2D18
    } else if step == 3 {
        0x4002_D97C_7F33_21D2
    } else if step == 4 {
        0x4009_21FB_5444_2D18
    } else if step == 5 {
        0x400F_6A7A_2955_385E
    } else if step == 6 {
        0x4012_D97C_7F33_21D2
    } else {
        0x4015_FDBB_E9BB_A775
    }
}

impl Action {
    /// The move that goes nowhere: radius zero, angle zero.
    pub open spec fn still() -> Action {
        Action { radius: 0, angle: 0 }
    }

    /// The random move with the given steps of radius and angle.
    pub open spec fn on_compass(radius_step: int, angle_step: int) -> Action {
        Action { radius: radius_of(radius_step), angle: bearing_of(angle_step) }
    }

    /// Whether the move is one of the 32 random moves: one of four radii, in
    /// one of eight directions.
    pub open spec fn is_random_move(self) -> bool {
        exists|r: int, a: int| 1 <= r <= 4 && 0 <= a < 8 && self == #[trigger] Action::on_compass(r, a)
    }

    /// The move that goes nowhere.
    pub fn halt() -> (action: Action)
        ensures
            action == Action::still(),
    {
        Action { radius: 0, angle: 0 }
    }

    /// The move of radius `radius_step` times 500 in the direction of
    /// `angle_step` times 45 degrees.
    pub fn compass(radius_step: i32, angle_step: i32) -> (action: Action)
        requires
            1 <= radius_step <= 4,
            0 <= angle_step < 8,
        ensures
            action == Action::on_compass(radius_step as int, angle_step as int),
            action.is_random_move(),
    {
        let radius: u64 = if radius_step == 1 {
            0x407F_4000_0000_0000
        } else if radius_step == 2 {
            0x408F_4000_0000_0000
        } else if radius_step == 3 {
            0x4097_7000_0000_0000
        } else {
            0x409F_4000_0000_0000
        };
        let angle: u64 = if angle_step == 0 {
            0
        } else if angle_step == 1 {
            0x3FE9_21FB_5444_2D18
        } else if angle_step == 2 {
            0x3FF9_21FB_5444_2D18
        } else if angle_step == 3 {
            0x4002_D97C_7F33_21D2
        } else if angle_step == 4 {
            0x4009_21FB_5444_2D18
        } else if angle_step == 5 {
            0x400F_6A7A_2955_385E
        } else if angle_step == 6 {
            0x4012_D97C_7F33_21D2
        } else {
            0x4015_FDBB_E9BB_A775
        };
        let action = Action { radius, angle };
        assert(action == Action::on_compass(radius_step as int, angle_step as int));
        action
    }
}

/// The generator of rand that belongs to the thread.
#[verifier::external_type_specification]
#[verifier::external_body]
pub struct ExThreadRng(rand::rngs::ThreadRng);

/// `rand::thread_rng`: a handle to the generator of the thread. Nothing is
/// claimed of it.
#[verifier::external_body]
fn thread_generator() -> ThreadRng {
    rand::thread_rng()
}

/// `Rng::gen_range` on a half-open range of integers: some integer of the
/// range, `low` included and `high` not. Which one is not said. An empty
/// range is left out: the outside function panics on it.
#[verifier::external_body]
fn draw(rng: &mut ThreadRng, low: i32, high: i32) -> (n: i32)
    requires
        low < high,
    ensures
        low <= n < high,
{
    rng.gen_range(low..high)
}

/// A planner at work: its own game, the length and the number of the rollouts
/// it still has to play, the rollout in progress and the best one so far.
pub struct Solver {
    pub game: Game,
    pub depth: i32,
    pub rng: ThreadRng,
    pub budget: usize,
    pub actions: Vec<Action>,
    pub best_actions: Vec<Action>,
    pub best_score: i64,
}

/// What a planner holds, without its generator.
pub struct SolverState {
    pub game: GameState,
    pub depth: int,
    pub budget: nat,
    pub actions: Seq<Action>,
    pub best_actions: Seq<Action>,
    pub best_score: int,
}

impl View for Solver {
    type V = SolverState;

    open spec fn view(&self) -> SolverState {
        SolverState {
            game: self.game@,
            depth: self.depth as int,
            budget: self.budget as nat,
            actions: self.actions@,
            best_actions: self.best_actions@,
            best_score: self.best_score as int,
        }
    }
}

impl SolverState {
    /// Whether the rollout in progress is at its end: it has its full length,
    /// or it has a move and the game is over.
    pub open spec fn rollout_ends(self) -> bool {
        self.actions.len() >= self.depth || (self.actions.len() > 0 && self.game.is_over())
    }

    /// What the rollout in progress is worth: the score it reached plus what
    /// is still to be had.
    pub open spec fn worth(self) -> int {
        self.game.score + self.game.possible_score()
    }

    /// Whether the rollout in progress beats the best so far: it is worth
    /// more, or as much and is shorter.
    pub open spec fn improves(self) -> bool {
        self.worth() > self.best_score || (self.worth() == self.best_score && self.actions.len()
            < self.best_actions.len())
    }

    /// The state after the rollout in progress is closed: it is the best one
    /// if it beats the best so far, the game is put back, and one rollout less
    /// is left to play.
    pub open spec fn closed(self) -> SolverState {
        SolverState {
            game: self.game.rewound(),
            budget: (self.budget - 1) as nat,
            actions: Seq::empty(),
            best_actions: if self.improves() {
                self.actions
            } else {
                self.best_actions
            },
            best_score: if self.improves() {
                self.worth()
            } else {
                self.best_score
            },
            ..self
        }
    }

    /// The state once every rollout that is at its end is closed. With a
    /// depth of zero every rollout is empty and at its end, and the whole
    /// budget is used up.
    pub open spec fn caught_up(self) -> SolverState
        decreases self.budget,
    {
        if self.budget > 0 && self.rollout_ends() {
            self.closed().caught_up()
        } else {
            self
        }
    }

    /// The state with `action` added to the rollout in progress.
    pub open spec fn with_move(self, action: Action) -> SolverState {
        SolverState { actions: self.actions.push(action), ..self }
    }

    /// The move to make: the first of the best rollout, or the move that goes
    /// nowhere if the best rollout is empty.
    pub open spec fn choice(self) -> Action {
        if self.best_actions.len() > 0 {
            self.best_actions[0]
        } else {
            Action::still()
        }
    }
}

impl Solver {
    /// A planner for `game`, with rollouts of 4 moves and a budget of 10000
    /// rollouts, and nothing played yet.
    pub fn new(game: Game) -> (solver: Solver)
        ensures
            solver@ == (SolverState {
                game: game@,
                depth: 4,
                budget: 10000,
                actions: Seq::empty(),
                best_actions: Seq::empty(),
                best_score: 0,
            }),
    {
        Solver {
            game,
            depth: 4,
            rng: thread_generator(),
            budget: 10000,
            actions: Vec::new(),
            best_actions: Vec::new(),
            best_score: 0,
        }
    }

    /// Draws a random move: one of four radii, in one of eight directions.
    fn get_random_action(&mut self) -> (action: Action)
        ensures
            action.is_random_move(),
            final(self)@ == old(self)@,
    {
        let radius_step = draw(&mut self.rng, 1, 5);
        let angle_step = draw(&mut self.rng, 0, 8);
        Action::compass(radius_step, angle_step)
    }

    /// Whether the rollout in progress is at its end.
    pub fn rollout_ends(&self) -> (ends: bool)
        ensures
            ends == self@.rollout_ends(),
    {
        self.depth <= 0 || self.actions.len() >= self.depth as usize || (self.actions.len() > 0
            && self.game.is_over())
    }

    /// Closes the rollout in progress: keeps it if it beats the best so far,
    /// puts the game back, and counts the rollout.
    fn close_rollout(&mut self)
        requires
            old(self).game@.wf(),
            old(self).budget > 0,
        ensures
            final(self)@ == old(self)@.closed(),
            final(self).game@.wf(),
    {
        proof {
            what_is_to_be_had_fits(self.game@);
        }
        let current = self.game.score + self.game.possible_score();
        let mut played: Vec<Action> = Vec::new();
        std::mem::swap(&mut self.actions, &mut played);
        if current > self.best_score || (current == self.best_score && played.len()
            < self.best_actions.len()) {
            self.best_score = current;
            self.best_actions = played;
        }
        self.game.reset();
        self.budget = self.budget - 1;
    }

    /// Closes every rollout that is at its end. Then, if the budget is used
    /// up, returns `None`: the search is over, and `best_action` is its
    /// result. Else draws a random move, adds it to the rollout in progress
    /// and returns it: the caller plays it on `game`.
    pub fn next_move(&mut self) -> (next: Option<Action>)
        requires
            old(self).game@.wf(),
        ensures
            final(self).game@.wf(),
            match next {
                None => old(self)@.caught_up().budget == 0 && final(self)@ == old(self)@.caught_up(),
                Some(action) => {
                    &&& old(self)@.caught_up().budget > 0
                    &&& action.is_random_move()
                    &&& final(self)@ == old(self)@.caught_up().with_move(action)
                },
            },
    {
        while self.budget > 0 && self.rollout_ends()
            invariant
                self.game@.wf(),
                self@.caught_up() == old(self)@.caught_up(),
            decreases self.budget,
        {
            self.close_rollout();
        }
        if self.budget == 0 {
            None
        } else {
            let action = self.get_random_action();
            self.actions.push(action);
            Some(action)
        }
    }

    /// The move to make: the first of the best rollout, or the move that goes
    /// nowhere if no rollout with a move was ever the best.
    pub fn best_action(&self) -> (action: Action)
        ensures
            action == self@.choice(),
    {
        if self.best_actions.len() > 0 {
            self.best_actions[0]
        } else {
            Action::halt()
        }
    }
}

/// Closing a rollout never lowers the worth of the best one, and replaces
/// the best one only by the rollout in progress.
pub proof fn best_never_gets_worse(state: SolverState)
    ensures
        state.closed().best_score >= state.best_score,
        state.closed().best_actions == state.best_actions || (state.closed().best_actions
            == state.actions && state.closed().best_score == state.worth()),
{
}

/// Without rollouts to play, or with rollouts of no move, a planner that has
/// played nothing hands out no move, and the move to make is the one that
/// goes nowhere.
pub proof fn no_rollout_no_move(state: SolverState)
    requires
        state.budget == 0 || state.depth <= 0,
        state.actions.len() == 0,
        state.best_actions.len() == 0,
    ensures
        state.caught_up().budget == 0,
        state.caught_up().choice() == Action::still(),
    decreases state.budget,
{
    if state.budget > 0 {
        no_rollout_no_move(state.closed());
    }
}

} // verus!
