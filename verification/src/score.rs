//! What a kill is worth.
//!
//! The zombies killed in one turn are worth more and more: the first counts
//! once, the second once, the third twice, and each one after that as much as
//! the two before it together, as the Fibonacci numbers go. The bonus of a
//! turn is the sum of these over the zombies killed in it, and the score of
//! the turn is the bonus times ten times the square of the number of living
//! humans.

use vstd::prelude::*;

verus! {

/// The number of entries of the table of bonuses.
pub const TABLE_LEN: usize = 30;

/// The bonus for as many kills as the table has entries, or more: the
/// Fibonacci number after the last one that the table adds up.
pub const BEYOND_TABLE: i32 = 832040;

/// The largest bonus there is: the last entry of the table.
pub const LARGEST_BONUS: i64 = 1346268;

/// The Fibonacci numbers: 0, 1, 1, 2, 3, 5, ...
pub open spec fn fib(n: nat) -> nat
    decreases n,
{
    if n == 0 {
        0
    } else if n == 1 {
        1
    } else {
        fib((n - 1) as nat) + fib((n - 2) as nat)
    }
}

/// The bonus for `kills` kills in one turn, as long as the table reaches: the
/// sum of the Fibonacci numbers up to the one of index `kills`.
pub open spec fn bonus(kills: nat) -> nat
    decreases kills,
{
    if kills == 0 {
        0
    } else {
        bonus((kills - 1) as nat) + fib(kills)
    }
}

/// The bonus for `kills` kills in one turn. Beyond the table it is a constant.
pub open spec fn multiplier(kills: nat) -> nat {
    if kills < TABLE_LEN {
        bonus(kills)
    } else {
        BEYOND_TABLE as nat
    }
}

/// The table of bonuses.
pub open spec fn table() -> Seq<i32> {
    Seq::new(TABLE_LEN as nat, |k: int| bonus(k as nat) as i32)
}

/// Some Fibonacci numbers: the first ones, the one that stands for what is
/// beyond the table, and the one after it.
pub proof fn fib_values()
    ensures
        fib(0) == 0,
        fib(1) == 1,
        fib(2) == 1,
        fib(3) == 2,
        fib(30) == 832040,
        fib(31) == 1346269,
{
    assert(fib(0) == 0);
    assert(fib(1) == 1);
    assert(fib(2) == 1);
    assert(fib(3) == 2);
    assert(fib(4) == 3);
    assert(fib(5) == 5);
    assert(fib(6) == 8);
    assert(fib(7) == 13);
    assert(fib(8) == 21);
    assert(fib(9) == 34);
    assert(fib(10) == 55);
    assert(fib(11) == 89);
    assert(fib(12) == 144);
    assert(fib(13) == 233);
    assert(fib(14) == 377);
    assert(fib(15) == 610);
    assert(fib(16) == 987);
    assert(fib(17) == 1597);
    assert(fib(18) == 2584);
    assert(fib(19) == 4181);
    assert(fib(20) == 6765);
    assert(fib(21) == 10946);
    assert(fib(22) == 17711);
    assert(fib(23) == 28657);
    assert(fib(24) == 46368);
    assert(fib(25) == 75025);
    assert(fib(26) == 121393);
    assert(fib(27) == 196418);
    assert(fib(28) == 317811);
    assert(fib(29) == 514229);
    assert(fib(30) == 832040);
    assert(fib(31) == 1346269);
}

/// The Fibonacci numbers do not fall.
pub proof fn fib_is_monotonic(a: nat, b: nat)
    requires
        a <= b,
    ensures
        fib(a) <= fib(b),
    decreases b,
{
    if a < b {
        fib_is_monotonic(a, (b - 1) as nat);
        if b >= 2 {
            assert(fib(b) == fib((b - 1) as nat) + fib((b - 2) as nat));
        }
    }
}

/// From the second 1 on the Fibonacci numbers rise.
pub proof fn fib_rises(a: nat, b: nat)
    requires
        2 <= a < b,
    ensures
        fib(a) < fib(b),
    decreases b,
{
    fib_values();
    fib_is_monotonic(1, (b - 2) as nat);
    assert(fib(b) == fib((b - 1) as nat) + fib((b - 2) as nat));
    if a < b - 1 {
        fib_rises(a, (b - 1) as nat);
    }
}

/// A bonus is a Fibonacci number less one.
pub proof fn bonus_is_fib_less_one(kills: nat)
    ensures
        bonus(kills) + 1 == fib(kills + 2),
    decreases kills,
{
    fib_values();
    if kills > 0 {
        bonus_is_fib_less_one((kills - 1) as nat);
        assert(fib(kills + 2) == fib((kills + 1) as nat) + fib(kills));
    }
}

/// No kill, no bonus; a kill, a bonus; and no bonus is above the last entry
/// of the table.
pub proof fn multiplier_is_bounded(kills: nat)
    ensures
        multiplier(0) == 0,
        multiplier(kills) <= LARGEST_BONUS,
        kills >= 1 ==> multiplier(kills) >= 1,
{
    fib_values();
    if kills < TABLE_LEN {
        bonus_is_fib_less_one(kills);
        fib_is_monotonic(kills + 2, 31);
        if kills >= 1 {
            fib_is_monotonic(3, kills + 2);
        }
    }
}

/// As far as the table reaches, killing `a + b` zombies in one turn brings at
/// least the bonus of killing `a` in one turn and `b` in another, and more
/// than that as soon as one of the two turns has two kills.
pub proof fn together_beats_apart(a: nat, b: nat)
    requires
        a + b < TABLE_LEN,
    ensures
        multiplier(a + b) >= multiplier(a) + multiplier(b),
        a >= 1 && b >= 2 ==> multiplier(a + b) > multiplier(a) + multiplier(b),
        a >= 2 && b >= 1 ==> multiplier(a + b) > multiplier(a) + multiplier(b),
    decreases b,
{
    if b > 0 {
        together_beats_apart(a, (b - 1) as nat);
        assert(bonus(a + b) == bonus((a + b - 1) as nat) + fib(a + b));
        assert(bonus(b) == bonus((b - 1) as nat) + fib(b));
        fib_is_monotonic(b, a + b);
        if a >= 1 && b >= 2 {
            fib_rises(b, a + b);
        }
        if a >= 2 && b == 1 {
            fib_values();
            fib_rises(2, a + 1);
            assert(bonus(1) == bonus(0) + fib(1));
        }
    }
}

/// Two kills in one turn bring just the bonus of two turns with one kill
/// each; three kills in one turn bring more than a turn with two and a turn
/// with one.
pub proof fn the_first_bonuses()
    ensures
        multiplier(1) == 1,
        multiplier(2) == 2,
        multiplier(3) == 4,
        multiplier(2) == multiplier(1) + multiplier(1),
        multiplier(3) > multiplier(2) + multiplier(1),
{
    fib_values();
    assert(bonus(1) == bonus(0) + fib(1));
    assert(bonus(2) == bonus(1) + fib(2));
    assert(bonus(3) == bonus(2) + fib(3));
}

} // verus!
