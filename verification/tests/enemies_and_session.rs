use mall_raycaster::collectable::Collectable;
use mall_raycaster::enemy::{Enemy, EnemyType, Heading, Probes, TurnPreference};
use mall_raycaster::level::{level_setup, Level, LEVEL_MONEY, POLICE_SPEED};
use mall_raycaster::maze::parse_maze;
use mall_raycaster::session::{GameState, Session};

fn grid() -> Vec<Vec<char>> {
    // row 0: "#####", row 1: "#   #", row 2: "# # #", row 3: "#####"
    parse_maze(&"#####\n#   #\n# # #\n#####".chars().collect())
}

const WALL: (usize, usize) = (0, 0);
const OPEN: (usize, usize) = (1, 1);

#[test]
fn turns_compose() {
    for h in [Heading::PlusX, Heading::PlusY, Heading::MinusX, Heading::MinusY] {
        assert_eq!(h.left().right(), h);
        assert_eq!(h.right().left(), h);
        assert_eq!(h.back().back(), h);
        assert_eq!(h.right().right(), h.back());
        assert_eq!(h.right().right().right().right(), h);
        assert_eq!((h.right().dx(), h.right().dy()), (h.dy(), -h.dx()));
        assert_eq!((h.left().dx(), h.left().dy()), (-h.dy(), h.dx()));
    }
    assert_eq!(Heading::PlusX.right(), Heading::MinusY);
    assert_eq!(Heading::PlusX.left(), Heading::PlusY);
}

#[test]
fn new_enemies() {
    let p = Enemy::new(TurnPreference::Left, EnemyType::Police);
    assert_eq!(p.texture_key(), 'e');
    assert_eq!(p.heading(), Heading::PlusX);
    assert_eq!(p.turn_preference(), TurnPreference::Left);
    assert!(p.is_animated());
    let d = Enemy::new(TurnPreference::Right, EnemyType::Debt);
    assert_eq!(d.texture_key(), 'd');
    assert_eq!(d.enemy_type(), EnemyType::Debt);
    assert!(!d.is_animated());
}

#[test]
fn open_way_ahead_keeps_heading() {
    let m = grid();
    let mut e = Enemy::new(TurnPreference::Right, EnemyType::Debt);
    e.update(false, &m, Probes { ahead: OPEN, right: OPEN, left: OPEN });
    assert_eq!(e.heading(), Heading::PlusX);
}

#[test]
fn blocked_turns_to_preferred_side_first() {
    let m = grid();
    let mut e = Enemy::new(TurnPreference::Right, EnemyType::Debt);
    e.update(false, &m, Probes { ahead: WALL, right: OPEN, left: OPEN });
    assert_eq!(e.heading(), Heading::MinusY);
    let mut e = Enemy::new(TurnPreference::Left, EnemyType::Debt);
    e.update(false, &m, Probes { ahead: WALL, right: OPEN, left: OPEN });
    assert_eq!(e.heading(), Heading::PlusY);
}

#[test]
fn blocked_preferred_side_takes_other_side() {
    let m = grid();
    let mut e = Enemy::new(TurnPreference::Right, EnemyType::Debt);
    e.update(false, &m, Probes { ahead: WALL, right: WALL, left: (3, 1) });
    assert_eq!(e.heading(), Heading::PlusY);
    let mut e = Enemy::new(TurnPreference::Left, EnemyType::Debt);
    e.update(false, &m, Probes { ahead: WALL, right: (2, 1), left: (2, 2) });
    assert_eq!(e.heading(), Heading::MinusY);
}

#[test]
fn dead_end_turns_back() {
    let m = grid();
    let mut e = Enemy::new(TurnPreference::Left, EnemyType::Police);
    e.update(false, &m, Probes { ahead: (9, 9), right: (2, 2), left: (0, 1) });
    assert_eq!(e.heading(), Heading::MinusX);
    e.update(false, &m, Probes { ahead: (4, 1), right: WALL, left: WALL });
    assert_eq!(e.heading(), Heading::PlusX);
}

#[test]
fn police_walk_cycle() {
    let m = grid();
    let ok = Probes { ahead: OPEN, right: OPEN, left: OPEN };
    let mut e = Enemy::new(TurnPreference::Left, EnemyType::Police);
    e.update(false, &m, ok);
    assert_eq!(e.texture_key(), 'e');
    e.update(true, &m, ok);
    assert_eq!(e.texture_key(), 'f');
    e.update(true, &m, ok);
    assert_eq!(e.texture_key(), 'e');
    let mut d = Enemy::new(TurnPreference::Left, EnemyType::Debt);
    d.update(true, &m, ok);
    assert_eq!(d.texture_key(), 'd');
}

#[test]
fn levels() {
    let one = level_setup(Level::Debt);
    assert_eq!(one.enemies.len(), 11);
    assert!(one.enemies.iter().all(|e| e.enemy_type == EnemyType::Debt && e.speed == 0));
    assert_eq!(one.enemies[0].x_tenths, 25);
    assert_eq!(one.enemies[0].y_tenths, 55);
    assert_eq!(one.enemies[1].turn_preference, TurnPreference::Left);
    let two = level_setup(Level::Police);
    assert_eq!(two.enemies.len(), 6);
    assert!(two.enemies.iter().all(|e| e.enemy_type == EnemyType::Police && e.speed == POLICE_SPEED));
    assert_eq!(two.enemies[5].x_tenths, 105);
    for s in [one, two] {
        assert_eq!(s.max_money, LEVEL_MONEY);
        assert_eq!(s.max_money, 6);
        assert_eq!((s.start_x_tenths, s.start_y_tenths), (15, 65));
        assert_eq!(s.collectables.iter().filter(|c| c.texture_key == 'm').count(), 6);
        assert_eq!(s.collectables[3], Collectable::new(80, 75, 'm'));
    }
}

fn started(one: bool, two: bool) -> Session {
    let mut s = Session::new();
    assert!(s.welcome_frame(one, two).is_some());
    s
}

#[test]
fn welcome_without_keys_waits() {
    let mut s = Session::new();
    assert!(s.welcome_frame(false, false).is_none());
    assert_eq!(s.state(), GameState::Welcome);
    assert!(s.items().is_empty());
}

#[test]
fn key_two_wins_over_key_one() {
    let mut s = Session::new();
    let setup = s.welcome_frame(true, true).unwrap();
    assert_eq!(setup.enemies.len(), 6);
    assert_eq!(s.state(), GameState::Playing);
    assert_eq!(s.items().len(), 6);
    assert_eq!(s.money_collected(), 0);
    assert_eq!(s.max_money(), 6);
    assert!(!s.goal_unlocked());
}

#[test]
fn collecting_money_then_bag_wins() {
    let mut s = started(true, false);
    assert!(!s.spawn_bag_if_ready());
    let n = s.collect(&vec![true, false, true, false, false, false]);
    assert_eq!(n, 2);
    assert_eq!(s.money_collected(), 2);
    assert_eq!(s.items().len(), 4);
    assert_eq!(s.items()[0], Collectable::new(65, 55, 'm'));
    assert_eq!(s.collect(&vec![false; 4]), 0);
    assert_eq!(s.money_collected(), 2);
    assert!(!s.spawn_bag_if_ready());
    assert_eq!(s.collect(&vec![true; 4]), 4);
    assert_eq!(s.money_collected(), 6);
    assert!(s.goal_unlocked());
    assert!(!s.show_bag_hint());
    assert!(s.spawn_bag_if_ready());
    assert!(s.bag_created());
    assert!(s.show_bag_hint());
    assert_eq!(s.items(), &vec![Collectable::new(80, 75, 'b')]);
    assert!(!s.spawn_bag_if_ready());
    assert_eq!(s.state(), GameState::Playing);
    assert_eq!(s.collect(&vec![true]), 1);
    assert!(s.bag_collected());
    assert_eq!(s.state(), GameState::GameWon);
    assert!(s.items().is_empty());
    assert!(!s.spawn_bag_if_ready());
    assert!(s.confirm_frame(true));
}

#[test]
fn frame_end_precedence() {
    let mut s = started(false, true);
    s.end_frame(false, false, false);
    assert_eq!(s.state(), GameState::Playing);
    s.end_frame(true, false, false);
    assert_eq!(s.state(), GameState::GameWon);
    let mut s = started(false, true);
    s.end_frame(true, true, false);
    assert_eq!(s.state(), GameState::GameOver);
    let mut s = started(false, true);
    s.end_frame(true, true, true);
    assert_eq!(s.state(), GameState::Welcome);
}

#[test]
fn game_over_returns_to_menu_and_restarts() {
    let mut s = started(true, false);
    s.collect(&vec![true, true, false, false, false, false]);
    s.end_frame(false, true, false);
    assert_eq!(s.state(), GameState::GameOver);
    assert!(!s.confirm_frame(false));
    assert_eq!(s.state(), GameState::GameOver);
    assert!(!s.confirm_frame(true));
    assert_eq!(s.state(), GameState::Welcome);
    assert!(s.welcome_frame(false, true).is_some());
    assert_eq!(s.money_collected(), 0);
    assert_eq!(s.items().len(), 6);
    assert!(!s.bag_created());
}

#[test]
fn victory_screen_waits_for_enter() {
    let mut s = started(true, false);
    s.end_frame(true, false, false);
    assert!(!s.confirm_frame(false));
    assert_eq!(s.state(), GameState::GameWon);
    assert!(s.confirm_frame(true));
    assert_eq!(s.state(), GameState::GameWon);
}
