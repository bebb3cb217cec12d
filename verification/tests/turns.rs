use code_vs_zombies::entity::{copy_actors, count_living, Entity};
use code_vs_zombies::game::Game;
use code_vs_zombies::point::Point;
use code_vs_zombies::pursuit::{decide, find_nearest, Chase, Target, STRIDE};
use code_vs_zombies::solver::Action;

fn num(bits: u64) -> f64 {
    f64::from_bits(bits)
}

fn point(x: f64, y: f64) -> Point {
    Point::new(x.to_bits(), y.to_bits())
}

fn actor(id: i32, x: f64, y: f64) -> Entity {
    Entity::new(id, x.to_bits(), y.to_bits())
}

fn sqdist(a: &Entity, b: &Entity) -> f64 {
    (num(a.position.x) - num(b.position.x)).powi(2) + (num(a.position.y) - num(b.position.y)).powi(2)
}

fn action(radius: f64, degrees: f64) -> Action {
    Action { radius: radius.to_bits(), angle: degrees.to_radians().to_bits() }
}

fn to_point(action: &Action, entity: &Entity) -> Point {
    let radius = num(action.radius);
    let angle = num(action.angle);
    point(
        num(entity.position.x) + radius * angle.cos(),
        num(entity.position.y) + radius * angle.sin(),
    )
}

fn target_keys(game: &Game) -> Vec<Vec<u64>> {
    let mut keys = Vec::new();
    for zombie in &game.zombies {
        let mut row = Vec::new();
        for human in &game.humans {
            row.push(sqdist(zombie, human).to_bits());
        }
        row.push(sqdist(zombie, &game.ash).to_bits());
        keys.push(row);
    }
    keys
}

fn landing(zombie: &Entity, target: &Entity, key: u64) -> Point {
    let dx = num(target.position.x) - num(zombie.position.x);
    let dy = num(target.position.y) - num(zombie.position.y);
    let dist = num(key).sqrt();
    let stride = num(STRIDE);
    point(
        num(zombie.position.x) + (dx / dist * stride).floor(),
        num(zombie.position.y) + (dy / dist * stride).floor(),
    )
}

fn landings(game: &Game, chases: &[Chase]) -> Vec<Point> {
    let mut points = Vec::new();
    for (zombie, chase) in game.zombies.iter().zip(chases) {
        points.push(match *chase {
            Chase::Advance(Target::Human(h), key) => landing(zombie, &game.humans[h], key),
            Chase::Advance(Target::Player, key) => landing(zombie, &game.ash, key),
            _ => zombie.position,
        });
    }
    points
}

fn kill_keys(game: &Game) -> Vec<u64> {
    game.zombies.iter().map(|zombie| sqdist(&game.ash, zombie).to_bits()).collect()
}

fn step(game: &mut Game, action: &Action) {
    let keys = target_keys(game);
    let chases = game.choose_targets(&keys);
    let points = landings(game, &chases);
    let target = to_point(action, &game.ash);
    let pairs = game.relocate(&chases, &points, target);
    let near = kill_keys(game);
    assert!(game.is_sound());
    game.settle(pairs, &near);
}

fn xy(e: &Entity) -> (f64, f64) {
    (num(e.position.x), num(e.position.y))
}

fn row(keys: &[f64]) -> Vec<u64> {
    keys.iter().map(|k| k.to_bits()).collect()
}

fn dead(id: i32, x: f64, y: f64) -> Entity {
    let mut e = actor(id, x, y);
    e.alive = false;
    e
}

fn flags(actors: &[Entity]) -> Vec<bool> {
    actors.iter().map(|a| a.alive).collect()
}

#[test]
fn it_clones() {
    let mut game = Game::new(
        vec![actor(0, 1500.0, 1500.0)],
        vec![actor(0, 1000.0, 1000.0)],
        actor(0, 0.0, 0.0),
    );

    let copy = game.clone();

    step(&mut game, &action(0.0, 0.0));

    assert_eq!(num(game.zombies[0].position.x), 1282.0);
    assert_eq!(num(copy.zombies[0].position.x), 1000.0);
}

#[test]
fn a_zombie_out_of_reach_steps_towards_the_human() {
    let mut game = Game::new(
        vec![actor(0, 1500.0, 1500.0)],
        vec![actor(0, 1000.0, 1000.0)],
        actor(0, 0.0, 0.0),
    );
    let keys = target_keys(&game);
    assert_eq!(num(keys[0][0]), 500000.0);
    let chases = game.choose_targets(&keys);
    assert_eq!(chases, vec![Chase::Advance(Target::Human(0), 500000.0f64.to_bits())]);
    step(&mut game, &action(0.0, 0.0));
    assert_eq!(xy(&game.zombies[0]), (1282.0, 1282.0));
    assert_eq!(xy(&game.ash), (0.0, 0.0));
    // It ends its step within 2000 of the player.
    assert!(!game.zombies[0].alive);
    assert!(game.humans[0].alive);
    assert_eq!(game.score, 10);
    assert_eq!(game.step, 1);
}

#[test]
fn a_step_is_floored_towards_minus_infinity() {
    let mut game = Game::new(
        vec![actor(0, 1000.0, 1000.0)],
        vec![actor(0, 1500.0, 1600.0)],
        actor(0, 15000.0, 8000.0),
    );
    step(&mut game, &action(0.0, 0.0));
    // 400 * -500 / sqrt(610000) = -256.07..., 400 * -600 / sqrt(610000) = -307.28...
    assert_eq!(xy(&game.zombies[0]), (1500.0 - 257.0, 1600.0 - 308.0));
}

#[test]
fn a_zombie_in_reach_lands_on_its_target() {
    let mut game = Game::new(
        vec![actor(0, 1200.5, 1100.25)],
        vec![actor(0, 1000.0, 1000.0)],
        actor(0, 9000.0, 8000.0),
    );
    let keys = target_keys(&game);
    assert!(num(keys[0][0]) < 160000.0);
    let chases = game.choose_targets(&keys);
    assert_eq!(chases, vec![Chase::Catch(Target::Human(0))]);
    let points = vec![point(1.0, 2.0)];
    let pairs = game.relocate(&chases, &points, point(9000.0, 8000.0));
    assert_eq!(pairs, vec![(0, 0)]);
    assert_eq!(game.zombies[0].position.x, game.humans[0].position.x);
    assert_eq!(game.zombies[0].position.y, game.humans[0].position.y);
    assert_eq!(xy(&game.zombies[0]), (1200.5, 1100.25));
    assert_eq!(num(game.zombies[0].start_position.x), 1000.0);
}

#[test]
fn the_reach_of_a_zombie_is_strict() {
    let zombie = actor(0, 0.0, 0.0);
    let humans = vec![actor(0, 400.0, 0.0)];
    let at = decide(&zombie, &humans, &row(&[160000.0, 1e9]));
    assert_eq!(at, Chase::Advance(Target::Human(0), 160000.0f64.to_bits()));
    let below = decide(&zombie, &humans, &row(&[159999.99999999997, 1e9]));
    assert_eq!(below, Chase::Catch(Target::Human(0)));
}

#[test]
fn a_zombie_that_catches_the_player_lands_where_the_player_stood() {
    let mut game = Game::new(vec![], vec![actor(0, 100.0, 100.0)], actor(0, 300.0, 100.0));
    let keys = target_keys(&game);
    let chases = game.choose_targets(&keys);
    assert_eq!(chases, vec![Chase::Catch(Target::Player)]);
    let points = landings(&game, &chases);
    let pairs = game.relocate(&chases, &points, point(5000.0, 100.0));
    assert!(pairs.is_empty());
    assert_eq!(xy(&game.zombies[0]), (300.0, 100.0));
    assert_eq!(xy(&game.ash), (5000.0, 100.0));
}

#[test]
fn the_nearest_wins_and_of_two_as_near_the_first() {
    let humans = vec![actor(0, 0.0, 0.0), actor(1, 0.0, 0.0), actor(2, 0.0, 0.0)];
    assert_eq!(find_nearest(&humans, &row(&[9.0, 4.0, 5.0, 6.0])), Some(1));
    assert_eq!(find_nearest(&humans, &row(&[4.0, 4.0, 4.0, 4.0])), Some(0));
    assert_eq!(find_nearest(&humans, &row(&[9.0, 4.0, 4.0, 4.0])), Some(1));
    assert_eq!(find_nearest(&humans, &row(&[9.0, 8.0, 7.0, 7.0])), Some(2));
    assert_eq!(find_nearest(&humans, &row(&[9.0, 8.0, 7.0, 6.0])), Some(3));
    assert_eq!(find_nearest(&humans, &row(&[0.0, -0.0, 0.0, 0.0])), Some(0));
}

#[test]
fn the_dead_are_no_target() {
    let humans = vec![dead(0, 0.0, 0.0), actor(1, 0.0, 0.0), dead(2, 0.0, 0.0)];
    assert_eq!(find_nearest(&humans, &row(&[1.0, 9.0, 2.0, 10.0])), Some(1));
    assert_eq!(find_nearest(&humans, &row(&[1.0, 9.0, 2.0, 8.0])), Some(3));
    let zombie = actor(0, 0.0, 0.0);
    assert_eq!(
        decide(&zombie, &humans, &row(&[1.0, 9.0, 2.0, 8.0])),
        Chase::Catch(Target::Player)
    );
}

#[test]
fn what_is_too_far_or_no_number_is_no_target() {
    let humans = vec![actor(0, 0.0, 0.0)];
    assert_eq!(find_nearest(&humans, &row(&[f64::NAN, f64::INFINITY])), None);
    assert_eq!(find_nearest(&humans, &row(&[f64::MAX, f64::MAX])), None);
    assert_eq!(find_nearest(&humans, &row(&[f64::NAN, 1e300])), Some(1));
    let zombie = actor(0, 0.0, 0.0);
    assert_eq!(decide(&zombie, &humans, &row(&[f64::NAN, f64::NAN])), Chase::Rest);
}

#[test]
fn a_dead_zombie_rests() {
    let humans = vec![actor(0, 10.0, 0.0)];
    let zombie = dead(0, 0.0, 0.0);
    assert_eq!(decide(&zombie, &humans, &row(&[100.0, 1e9])), Chase::Rest);
    assert_eq!(decide(&zombie, &humans, &Vec::new()), Chase::Rest);
    let mut game = Game::new(humans, vec![zombie], actor(0, 9000.0, 5000.0));
    step(&mut game, &action(0.0, 0.0));
    assert_eq!(xy(&game.zombies[0]), (0.0, 0.0));
    assert!(game.humans[0].alive);
}

#[test]
fn the_player_stays_in_the_field() {
    let mut game = Game::new(vec![], vec![], actor(0, 100.0, 100.0));
    game.relocate(&vec![], &vec![], point(-5.0, 9000.0));
    assert_eq!(xy(&game.ash), (0.0, 8999.0));
    game.relocate(&vec![], &vec![], point(16000.0, -0.5));
    assert_eq!(xy(&game.ash), (15999.0, 0.0));
    game.relocate(&vec![], &vec![], point(15999.0, 8999.0));
    assert_eq!(xy(&game.ash), (15999.0, 8999.0));
    game.relocate(&vec![], &vec![], point(0.0, 0.0));
    assert_eq!(xy(&game.ash), (0.0, 0.0));
    game.relocate(&vec![], &vec![], point(123.25, 4567.75));
    assert_eq!(xy(&game.ash), (123.25, 4567.75));
    game.relocate(&vec![], &vec![], point(f64::NAN, f64::INFINITY));
    assert_eq!(xy(&game.ash), (15999.0, 8999.0));
    assert_eq!(num(game.ash.start_position.x), 100.0);
}

#[test]
fn the_player_moves_by_radius_and_angle() {
    let mut game = Game::new(vec![], vec![], actor(0, 1000.0, 1000.0));
    step(&mut game, &action(500.0, 90.0));
    let (x, y) = xy(&game.ash);
    assert_eq!(y, 1500.0);
    assert!((x - 1000.0).abs() < 1e-9);
    step(&mut game, &action(2000.0, 180.0));
    let (x, y) = xy(&game.ash);
    assert_eq!(x, 0.0);
    assert!((y - 1500.0).abs() < 1e-9);
}

#[test]
fn a_zombie_near_the_player_dies_and_the_range_is_strict() {
    let mut game = Game::new(
        vec![actor(0, 15000.0, 8000.0)],
        vec![actor(0, 2000.0, 0.0), actor(1, 1999.0, 0.0), actor(2, 0.0, 2000.5)],
        actor(0, 0.0, 0.0),
    );
    game.settle(vec![], &row(&[4000000.0, 3996001.0, 4002000.25]));
    assert_eq!(flags(&game.zombies), vec![true, false, true]);
    assert_eq!(game.score, 10);
    assert_eq!(game.step, 1);
    game.settle(vec![], &row(&[3999999.9999999995, 0.0, f64::NAN]));
    assert_eq!(flags(&game.zombies), vec![false, false, true]);
    assert_eq!(game.score, 20);
    assert_eq!(game.step, 2);
}

#[test]
fn the_kill_is_measured_from_where_the_player_goes() {
    let mut game = Game::new(
        vec![actor(0, 15000.0, 8000.0)],
        vec![actor(0, 5000.0, 0.0)],
        actor(0, 0.0, 0.0),
    );
    step(&mut game, &action(0.0, 0.0));
    assert!(game.zombies[0].alive);
    let mut game = Game::new(
        vec![actor(0, 15000.0, 8000.0)],
        vec![actor(0, 5000.0, 0.0)],
        actor(0, 0.0, 0.0),
    );
    // The zombie goes to (4600, 0) towards the player, the player to (2700, 0).
    step(&mut game, &action(2700.0, 0.0));
    assert_eq!(xy(&game.zombies[0]), (4600.0, 0.0));
    assert!(!game.zombies[0].alive);
    assert_eq!(game.score, 10);
}

#[test]
fn a_zombie_killed_in_the_turn_it_catches_a_human_does_not_eat_it() {
    let mut game = Game::new(
        vec![actor(0, 1000.0, 1000.0), actor(1, 9000.0, 1000.0)],
        vec![actor(0, 1100.0, 1000.0), actor(1, 9100.0, 1000.0)],
        actor(0, 0.0, 1000.0),
    );
    step(&mut game, &action(0.0, 0.0));
    // Both zombies land on their human. The first is within 2000 of the player.
    assert_eq!(xy(&game.zombies[0]), (1000.0, 1000.0));
    assert_eq!(xy(&game.zombies[1]), (9000.0, 1000.0));
    assert_eq!(flags(&game.zombies), vec![false, true]);
    assert_eq!(flags(&game.humans), vec![true, false]);
    // One kill, one human left.
    assert_eq!(game.score, 10);
}

#[test]
fn pairs_are_read_after_the_kills() {
    let mut game = Game::new(
        vec![actor(0, 0.0, 0.0), actor(1, 0.0, 0.0), actor(2, 0.0, 0.0)],
        vec![actor(0, 0.0, 0.0), actor(1, 0.0, 0.0), dead(2, 0.0, 0.0)],
        actor(0, 0.0, 0.0),
    );
    game.settle(vec![(0, 0), (1, 1), (2, 2), (1, 0)], &row(&[1.0, 5000000.0, 5000000.0]));
    assert_eq!(flags(&game.zombies), vec![false, true, false]);
    assert_eq!(flags(&game.humans), vec![true, false, true]);
    assert_eq!(game.score, 1 * 2 * 2 * 10);
}

#[test]
fn kills_at_once_are_worth_at_least_as_much_as_one_by_one() {
    let humans = vec![actor(0, 0.0, 0.0), actor(1, 0.0, 0.0), actor(2, 0.0, 0.0)];
    let zombies = vec![actor(0, 0.0, 0.0), actor(1, 0.0, 0.0), actor(2, 0.0, 0.0)];
    let far = 5000000.0;

    // Two at once, and the same two one by one: the same.
    let mut together = Game::new(humans.clone(), zombies.clone(), actor(0, 0.0, 0.0));
    together.settle(vec![], &row(&[1.0, 1.0, far]));
    assert_eq!(together.score, 2 * 9 * 10);
    let mut apart = Game::new(humans.clone(), zombies.clone(), actor(0, 0.0, 0.0));
    apart.settle(vec![], &row(&[1.0, far, far]));
    assert_eq!(apart.score, 90);
    apart.settle(vec![], &row(&[1.0, 1.0, far]));
    assert_eq!(apart.score, 180);
    assert_eq!(together.score, apart.score);

    // Three at once: more than two and one, and more than one by one.
    let mut all = Game::new(humans.clone(), zombies.clone(), actor(0, 0.0, 0.0));
    all.settle(vec![], &row(&[1.0, 1.0, 1.0]));
    assert_eq!(all.score, 4 * 9 * 10);
    together.settle(vec![], &row(&[1.0, 1.0, 1.0]));
    assert_eq!(together.score, 180 + 90);
    apart.settle(vec![], &row(&[1.0, 1.0, 1.0]));
    assert_eq!(apart.score, 270);
    assert!(all.score > together.score);
    assert!(all.score > apart.score);
}

#[test]
fn the_table_of_bonuses() {
    let table = Game::get_fib_array();
    let want: [i32; 30] = [
        0, 1, 2, 4, 7, 12, 20, 33, 54, 88, 143, 232, 376, 609, 986, 1596, 2583, 4180, 6764, 10945,
        17710, 28656, 46367, 75024, 121392, 196417, 317810, 514228, 832039, 1346268,
    ];
    assert_eq!(table, want);
    let game = Game::new(vec![], vec![], actor(0, 0.0, 0.0));
    assert_eq!(game.ks, want);
}

#[test]
fn the_score_of_a_turn() {
    for kills in [0usize, 1, 2, 3, 5, 29, 30, 31, 40] {
        let humans: Vec<Entity> = (0..4).map(|i| actor(i, 0.0, 0.0)).collect();
        let zombies: Vec<Entity> = (0..40).map(|i| actor(i, 0.0, 0.0)).collect();
        let mut game = Game::new(humans, zombies, actor(0, 0.0, 0.0));
        let near: Vec<f64> = (0..40).map(|z| if z < kills { 0.0 } else { 1e8 }).collect();
        // One human is caught by a zombie that lives, unless all die.
        game.settle(vec![(3, 39)], &row(&near));
        let left: i64 = if kills == 40 { 4 } else { 3 };
        let bonus: i64 = if kills < 30 { Game::get_fib_array()[kills] as i64 } else { 832040 };
        assert_eq!(game.score, bonus * left * left * 10, "{} kills", kills);
        assert_eq!(count_living(&game.zombies), 40 - kills);
        assert_eq!(count_living(&game.humans), left as usize);
    }
}

#[test]
fn the_game_is_over_without_humans_or_without_zombies() {
    let a = actor(0, 0.0, 0.0);
    assert!(Game::new(vec![], vec![], a).is_over());
    assert!(Game::new(vec![a], vec![], a).is_over());
    assert!(Game::new(vec![], vec![a], a).is_over());
    assert!(!Game::new(vec![a], vec![a], a).is_over());
    assert!(Game::new(vec![dead(0, 0.0, 0.0), dead(1, 0.0, 0.0)], vec![a], a).is_over());
    assert!(Game::new(vec![a], vec![dead(0, 0.0, 0.0)], a).is_over());
    assert!(!Game::new(vec![dead(0, 0.0, 0.0), a], vec![dead(0, 0.0, 0.0), a], a).is_over());
}

#[test]
fn what_is_still_to_be_had() {
    let a = actor(0, 0.0, 0.0);
    let d = dead(0, 0.0, 0.0);
    assert_eq!(Game::new(vec![a, a], vec![a, a, a], a).possible_score(), 3 * 4 * 10);
    assert_eq!(Game::new(vec![a, d, a], vec![a, d, a, a, d], a).possible_score(), 120);
    assert_eq!(Game::new(vec![], vec![a, a, a], a).possible_score(), 0);
    assert_eq!(Game::new(vec![a, a], vec![], a).possible_score(), 0);
    assert_eq!(Game::new(vec![a], vec![a], a).possible_score(), 10);
}

#[test]
fn reset_goes_back_to_the_start_and_revives_nobody() {
    let mut game = Game::new(
        vec![actor(0, 1000.0, 1000.0), actor(1, 9000.0, 1000.0)],
        vec![actor(0, 1100.0, 1000.0), actor(1, 9100.0, 1000.0)],
        actor(0, 0.0, 1000.0),
    );
    step(&mut game, &action(1000.0, 0.0));
    assert_eq!(game.score, 10);
    assert_eq!(game.step, 1);
    assert_eq!(xy(&game.ash), (1000.0, 1000.0));
    game.reset();
    assert_eq!(game.score, 0);
    assert_eq!(game.step, 0);
    assert_eq!(xy(&game.ash), (0.0, 1000.0));
    assert_eq!(xy(&game.zombies[0]), (1100.0, 1000.0));
    assert_eq!(xy(&game.zombies[1]), (9100.0, 1000.0));
    assert_eq!(xy(&game.humans[1]), (9000.0, 1000.0));
    assert_eq!(flags(&game.zombies), vec![false, true]);
    assert_eq!(flags(&game.humans), vec![true, false]);
}

#[test]
fn reset_twice_is_reset_once() {
    let mut game = Game::new(
        vec![actor(0, 1000.0, 1000.0), actor(1, 9000.0, 1000.0)],
        vec![actor(0, 1100.0, 1000.0), actor(1, 9100.0, 1000.0)],
        actor(0, 0.0, 1000.0),
    );
    step(&mut game, &action(1000.0, 45.0));
    step(&mut game, &action(500.0, 270.0));
    game.reset();
    let once = format!("{:?}", game);
    game.reset();
    assert_eq!(format!("{:?}", game), once);
}

#[test]
fn reset_goes_back_to_the_last_clone() {
    let mut game = Game::new(
        vec![actor(0, 8000.0, 4500.0), actor(1, 9000.0, 1000.0)],
        vec![actor(0, 1100.0, 1000.0), actor(1, 1000.0, 1100.0), actor(2, 15000.0, 8000.0)],
        actor(0, 0.0, 1000.0),
    );
    step(&mut game, &action(0.0, 0.0));
    // Two kills in one turn, two humans left.
    assert_eq!(game.score, 2 * 4 * 10);
    assert_eq!(game.step, 1);
    let mut copy = game.clone();
    assert_eq!(copy.start_score, 80);
    assert_eq!(copy.start_step, 1);
    assert_eq!(format!("{:?}", copy.humans), format!("{:?}", game.humans));
    assert_eq!(format!("{:?}", copy.zombies), format!("{:?}", game.zombies));
    step(&mut copy, &action(2000.0, 0.0));
    step(&mut copy, &action(2000.0, 0.0));
    assert_eq!(copy.step, 3);
    copy.reset();
    assert_eq!(copy.score, 80);
    assert_eq!(copy.step, 1);
    game.reset();
    assert_eq!(game.score, 0);
    assert_eq!(game.step, 0);
}

#[test]
fn an_actor_goes_back_to_where_it_was_made() {
    let mut e = actor(7, 12.0, 34.0);
    assert_eq!(e.id, 7);
    assert!(e.alive);
    assert_eq!(xy(&e), (12.0, 34.0));
    e.position = point(1.0, 2.0);
    e.alive = false;
    e.reset();
    assert_eq!(xy(&e), (12.0, 34.0));
    assert!(!e.alive);
    assert_eq!(num(e.start_position.y), 34.0);
}

#[test]
fn equal_games_take_equal_turns() {
    let game = Game::new(
        vec![actor(0, 8000.0, 4500.0), actor(1, 9000.0, 1000.0), actor(2, 3000.0, 3000.0)],
        vec![actor(0, 1100.0, 1000.0), actor(1, 8900.0, 1100.0), actor(2, 15000.0, 8000.0)],
        actor(0, 0.0, 1000.0),
    );
    let mut a = game.clone();
    let mut b = game.clone();
    for (radius, degrees) in [(1000.0, 45.0), (2000.0, 0.0), (500.0, 315.0), (1500.0, 90.0)] {
        step(&mut a, &action(radius, degrees));
        step(&mut b, &action(radius, degrees));
        assert_eq!(format!("{:?}", a), format!("{:?}", b));
    }
}

#[test]
fn nobody_comes_back_and_the_score_never_falls() {
    let mut game = Game::new(
        vec![actor(0, 8000.0, 4500.0), actor(1, 9000.0, 1000.0), actor(2, 3000.0, 3000.0)],
        vec![
            actor(0, 1100.0, 1000.0),
            actor(1, 8900.0, 1100.0),
            actor(2, 15000.0, 8000.0),
            actor(3, 4000.0, 4000.0),
        ],
        actor(0, 0.0, 1000.0),
    );
    let mut over = false;
    for turn in 0..60 {
        let humans = flags(&game.humans);
        let zombies = flags(&game.zombies);
        let score = game.score;
        step(&mut game, &action(1000.0, 45.0 * (turn % 8) as f64));
        for (now, was) in flags(&game.humans).iter().zip(&humans) {
            assert!(*was || !*now);
        }
        for (now, was) in flags(&game.zombies).iter().zip(&zombies) {
            assert!(*was || !*now);
        }
        assert!(count_living(&game.humans) <= humans.iter().filter(|a| **a).count());
        assert!(count_living(&game.zombies) <= zombies.iter().filter(|a| **a).count());
        assert!(game.score >= score);
        assert!(game.score >= 0);
        assert!(!over || game.is_over());
        over = game.is_over();
        assert_eq!(game.step, turn + 1);
    }
    assert!(over);
}

#[test]
fn a_game_is_sound_until_it_is_tampered_with() {
    let a = actor(0, 0.0, 0.0);
    let mut game = Game::new(vec![a, a], vec![a, a, a], a);
    assert!(game.is_sound());
    game.ks[3] = 5;
    assert!(!game.is_sound());
    game.ks[3] = 4;
    assert!(game.is_sound());
    game.start_score = 1;
    assert!(!game.is_sound());
    game.score = 1;
    assert!(game.is_sound());
    game.start_score = -1;
    assert!(!game.is_sound());
    game.start_score = 0;
    game.score = i64::MAX - 13462680 * 3 * 4;
    assert!(game.is_sound());
    game.score = i64::MAX - 13462680 * 3 * 4 + 1;
    assert!(!game.is_sound());
    game.zombies[0].alive = false;
    assert!(game.is_sound());
}

#[test]
fn actors_are_counted_and_copied() {
    let actors = vec![actor(0, 1.0, 2.0), dead(1, 3.0, 4.0), actor(2, 5.0, 6.0)];
    assert_eq!(count_living(&actors), 2);
    assert_eq!(count_living(&[].to_vec()), 0);
    let copy = copy_actors(&actors);
    assert_eq!(format!("{:?}", copy), format!("{:?}", actors));
}
