use rusty_robot::direction::Direction::{East, North, South, West};
use rusty_robot::robot::Robot;

#[test]
fn a_step_follows_the_heading() {
    let mut r = Robot { x: 2, y: 3, d: North };
    r.move_forward();
    assert_eq!(r, Robot { x: 2, y: 4, d: North });

    let mut r = Robot { x: 2, y: 3, d: East };
    r.move_forward();
    assert_eq!(r, Robot { x: 3, y: 3, d: East });

    let mut r = Robot { x: 2, y: 3, d: South };
    r.move_forward();
    assert_eq!(r, Robot { x: 2, y: 2, d: South });

    let mut r = Robot { x: 2, y: 3, d: West };
    r.move_forward();
    assert_eq!(r, Robot { x: 1, y: 3, d: West });
}

#[test]
fn a_step_asks_no_table() {
    let mut r = Robot { x: 0, y: 1_000_000, d: North };
    r.move_forward();
    assert_eq!(r, Robot { x: 0, y: 1_000_001, d: North });
}

#[test]
fn no_step_below_zero_or_beyond_the_largest_number() {
    assert!(!Robot { x: 0, y: 5, d: West }.steppable());
    assert!(!Robot { x: 5, y: 0, d: South }.steppable());
    assert!(!Robot { x: usize::MAX, y: 5, d: East }.steppable());
    assert!(!Robot { x: 5, y: usize::MAX, d: North }.steppable());

    assert!(Robot { x: 0, y: 5, d: East }.steppable());
    assert!(Robot { x: 0, y: 5, d: North }.steppable());
    assert!(Robot { x: 0, y: 5, d: South }.steppable());
    assert!(Robot { x: 1, y: 0, d: West }.steppable());
    assert!(Robot { x: usize::MAX, y: 0, d: West }.steppable());
    assert!(Robot { x: usize::MAX - 1, y: 0, d: East }.steppable());
}

#[test]
fn a_turn_keeps_the_cell() {
    let mut r = Robot { x: 1, y: 2, d: North };
    r.rotate(1);
    assert_eq!(r, Robot { x: 1, y: 2, d: East });
    r.rotate(-2);
    assert_eq!(r, Robot { x: 1, y: 2, d: West });
    r.rotate(-7);
    assert_eq!(r, Robot { x: 1, y: 2, d: North });
    r.rotate(8);
    assert_eq!(r, Robot { x: 1, y: 2, d: North });
}

#[test]
fn a_pose_as_text() {
    assert_eq!(Robot { x: 0, y: 0, d: North }.report(), "0, 0, North");
    assert_eq!(Robot { x: 3, y: 14, d: East }.report(), "3, 14, East");
    assert_eq!(Robot { x: 100, y: 9, d: South }.report(), "100, 9, South");
    assert_eq!(Robot { x: 10, y: 20, d: West }.report(), "10, 20, West");
    let largest = Robot { x: usize::MAX, y: usize::MAX, d: West }.report();
    assert_eq!(largest, format!("{}, {}, West", usize::MAX, usize::MAX));
}
