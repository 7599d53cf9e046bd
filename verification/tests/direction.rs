use rusty_robot::direction::Direction;
use rusty_robot::direction::Direction::{East, North, South, West};

#[test]
fn rotation() {
    assert_eq!(North.rotate(1), East);
    assert_eq!(East.rotate(1), South);
    assert_eq!(South.rotate(1), West);
    assert_eq!(West.rotate(1), North);

    assert_eq!(North.rotate(-1), West);
    assert_eq!(East.rotate(-1), North);
    assert_eq!(South.rotate(-1), East);
    assert_eq!(West.rotate(-1), South);

    assert_eq!(North.rotate(4), North);
    assert_eq!(North.rotate(-4), North);
}

const ALL: [Direction; 4] = [North, East, South, West];

#[test]
fn rotation_by_nothing_is_identity() {
    for d in ALL {
        assert_eq!(d.rotate(0), d);
    }
}

#[test]
fn full_turns_give_the_heading_back() {
    for d in ALL {
        for k in -50..=50 {
            assert_eq!(d.rotate(4 * k), d, "{:?} by {}", d, 4 * k);
        }
        assert_eq!(d.rotate(i32::MIN), d);
        assert_eq!(d.rotate(i32::MAX - 3), d);
    }
}

#[test]
fn rotations_add_up() {
    for d in ALL {
        for n in -9..=9 {
            for m in -9..=9 {
                assert_eq!(d.rotate(n).rotate(m), d.rotate(n + m), "{:?} {} {}", d, n, m);
            }
        }
    }
}

#[test]
fn rotation_takes_every_delta() {
    assert_eq!(North.rotate(-5), West);
    assert_eq!(North.rotate(-6), South);
    assert_eq!(North.rotate(-7), East);
    assert_eq!(West.rotate(-3), North);
    assert_eq!(North.rotate(i32::MAX), West);
    assert_eq!(West.rotate(i32::MAX), South);
    assert_eq!(North.rotate(i32::MIN + 1), East);
    assert_eq!(East.rotate(i32::MIN), East);
    assert_eq!(North.rotate(2), South);
    assert_eq!(East.rotate(6), West);
}

#[test]
fn names_of_the_headings() {
    assert_eq!(North.name(), "North");
    assert_eq!(East.name(), "East");
    assert_eq!(South.name(), "South");
    assert_eq!(West.name(), "West");
}
