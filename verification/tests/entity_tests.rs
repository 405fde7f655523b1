use chicken_invaders::Cannon;
use chicken_invaders::Chicken;
use chicken_invaders::Dir;
use chicken_invaders::Position;
use chicken_invaders::Rockets;

#[test]
fn cannon_spawns_at_bottom_center() {
    let cannon = Cannon::new();
    assert_eq!(cannon.cannon, '^');
    assert_eq!(cannon.pos, Position { col: 40, row: 24 });
    assert_eq!(cannon.dx, 0);
}

#[test]
fn chicken_spawns_falling_and_active() {
    let chick = Chicken::new(Position { col: 6, row: 2 });
    assert_eq!(chick.pos, Position { col: 6, row: 2 });
    assert_eq!(chick.dir, Dir::S);
    assert!(chick.active);
}

#[test]
fn rocket_spawns_inactive_pointing_north() {
    let rocket = Rockets::new(Position { col: 12, row: 20 });
    assert_eq!(rocket.pos, Position { col: 12, row: 20 });
    assert_eq!(rocket.dir, Dir::N);
    assert!(!rocket.active);
}
