use near_sdk::AccountId;
use robot_simulator::{Direction, Robot, RobotError};

fn owner() -> AccountId {
    "carol.near".parse().unwrap()
}

fn robot_at(x: i64, y: i64, direction: Direction) -> Robot {
    Robot::from_parts(x, y, direction, 5, owner())
}

#[test]
fn from_parts_keeps_every_part() {
    let robot = Robot::from_parts(-3, 8, Direction::South, 1234, owner());

    assert_eq!(robot.position(), (-3, 8));
    assert_eq!(robot.direction(), &Direction::South);
    assert_eq!(robot.last_move(), 1234);
    assert_eq!(robot.get_owner(), owner());
}

#[test]
fn from_parts_of_the_parts_is_the_same_robot() {
    let mut robot = robot_at(2, -2, Direction::West);
    robot.turn_right_at(40);
    robot.advance();

    let (x, y) = robot.position();
    let again = Robot::from_parts(x, y, *robot.direction(), robot.last_move(), robot.get_owner());

    assert_eq!(again, robot);
    assert_ne!(again, robot_at(2, -2, Direction::West));
}

#[test]
fn directions_turn_clockwise() {
    assert_eq!(Direction::North.turned_right(), Direction::East);
    assert_eq!(Direction::East.turned_right(), Direction::South);
    assert_eq!(Direction::South.turned_right(), Direction::West);
    assert_eq!(Direction::West.turned_right(), Direction::North);
}

#[test]
fn directions_turn_counterclockwise() {
    assert_eq!(Direction::North.turned_left(), Direction::West);
    assert_eq!(Direction::West.turned_left(), Direction::South);
    assert_eq!(Direction::South.turned_left(), Direction::East);
    assert_eq!(Direction::East.turned_left(), Direction::North);
}

#[test]
fn four_turns_come_back() {
    for start in [Direction::North, Direction::East, Direction::South, Direction::West] {
        let mut robot = robot_at(1, 1, start);
        robot.turn_right_at(1);
        robot.turn_right_at(2);
        robot.turn_right_at(3);
        robot.turn_right_at(4);
        assert_eq!(robot.direction(), &start);
        assert_eq!(robot.last_move(), 4);

        robot.turn_left_at(5);
        robot.turn_left_at(6);
        robot.turn_left_at(7);
        assert_ne!(robot.direction(), &start);
        robot.turn_left_at(8);
        assert_eq!(robot.direction(), &start);
        assert_eq!(robot.position(), (1, 1));
        assert_eq!(robot.last_move(), 8);
    }
}

#[test]
fn a_turn_back_undoes_a_turn() {
    for start in [Direction::North, Direction::East, Direction::South, Direction::West] {
        let mut robot = robot_at(0, 0, start);
        robot.turn_right_at(10);
        assert_ne!(robot.direction(), &start);
        robot.turn_left_at(11);
        assert_eq!(robot.direction(), &start);
        robot.turn_left_at(12);
        robot.turn_right_at(13);
        assert_eq!(robot.direction(), &start);
        assert_eq!(robot.last_move(), 13);
    }
}

#[test]
fn turn_right_at_sets_direction_and_time() {
    let mut robot = robot_at(6, 7, Direction::North);

    robot.turn_right_at(99);

    assert_eq!(robot.direction(), &Direction::East);
    assert_eq!(robot.last_move(), 99);
    assert_eq!(robot.position(), (6, 7));
    assert_eq!(robot.get_owner(), owner());
}

#[test]
fn turn_left_at_sets_direction_and_time() {
    let mut robot = robot_at(6, 7, Direction::North);

    robot.turn_left_at(u64::MAX);

    assert_eq!(robot.direction(), &Direction::West);
    assert_eq!(robot.last_move(), u64::MAX);
    assert_eq!(robot.position(), (6, 7));
    assert_eq!(robot.get_owner(), owner());
}

#[test]
fn advance_moves_one_cell_the_way_it_faces() {
    let mut north = robot_at(10, -10, Direction::North);
    north.advance();
    assert_eq!(north.position(), (10, -9));

    let mut east = robot_at(10, -10, Direction::East);
    east.advance();
    assert_eq!(east.position(), (11, -10));

    let mut south = robot_at(10, -10, Direction::South);
    south.advance();
    assert_eq!(south.position(), (10, -11));

    let mut west = robot_at(10, -10, Direction::West);
    west.advance();
    assert_eq!(west.position(), (9, -10));
}

#[test]
fn advance_keeps_direction_time_and_owner() {
    let mut robot = robot_at(0, 0, Direction::South);

    robot.advance();
    robot.advance();

    assert_eq!(robot.position(), (0, -2));
    assert_eq!(robot.direction(), &Direction::South);
    assert_eq!(robot.last_move(), 5);
    assert_eq!(robot.get_owner(), owner());
}

#[test]
fn advance_wraps_at_the_ends_of_the_range() {
    let mut north = robot_at(0, i64::MAX, Direction::North);
    north.advance();
    assert_eq!(north.position(), (0, i64::MIN));

    let mut east = robot_at(i64::MAX, 0, Direction::East);
    east.advance();
    assert_eq!(east.position(), (i64::MIN, 0));

    let mut south = robot_at(0, i64::MIN, Direction::South);
    south.advance();
    assert_eq!(south.position(), (0, i64::MAX));

    let mut west = robot_at(i64::MIN, 0, Direction::West);
    west.advance();
    assert_eq!(west.position(), (i64::MAX, 0));
}

#[test]
fn advance_next_to_the_ends_does_not_wrap() {
    let mut east = robot_at(i64::MAX - 1, 0, Direction::East);
    east.advance();
    assert_eq!(east.position(), (i64::MAX, 0));

    let mut south = robot_at(0, i64::MIN + 1, Direction::South);
    south.advance();
    assert_eq!(south.position(), (0, i64::MIN));

    let mut across = robot_at(i64::MAX, i64::MIN, Direction::North);
    across.advance();
    assert_eq!(across.position(), (i64::MAX, i64::MIN + 1));
}

#[test]
fn reset_goes_home_and_keeps_time_and_owner() {
    let mut robot = Robot::from_parts(1, 2, Direction::East, 321, owner());

    robot.reset();

    assert_eq!(robot.position(), (0, 0));
    assert_eq!(robot.direction(), &Direction::North);
    assert_eq!(robot.last_move(), 321);
    assert_eq!(robot.get_owner(), owner());
}

#[test]
fn reset_at_home_changes_nothing() {
    let mut robot = robot_at(0, 0, Direction::North);

    robot.reset();

    assert_eq!(robot, robot_at(0, 0, Direction::North));
}

#[test]
fn owner_outlives_every_operation() {
    let mut robot = robot_at(0, 0, Direction::North);

    robot.turn_right_at(1);
    assert_eq!(robot.get_owner(), owner());
    robot.advance();
    assert_eq!(robot.get_owner(), owner());
    robot.turn_left_at(2);
    assert_eq!(robot.get_owner(), owner());
    assert_eq!(robot.instructions_at("RRALA", 3), Ok(()));
    assert_eq!(robot.get_owner(), owner());
    assert_eq!(robot.instructions_at("x", 4), Err(RobotError::InvalidInstruction('x')));
    assert_eq!(robot.get_owner(), owner());
    robot.reset();
    assert_eq!(robot.get_owner(), owner());
    assert_ne!(robot.get_owner(), "dave.near".parse::<AccountId>().unwrap());
}

#[test]
fn only_turns_change_the_time() {
    let mut robot = robot_at(0, 0, Direction::North);

    robot.advance();
    assert_eq!(robot.last_move(), 5);
    robot.reset();
    assert_eq!(robot.last_move(), 5);
    assert_eq!(robot.instructions_at("AAAA", 6), Ok(()));
    assert_eq!(robot.last_move(), 5);
    assert_eq!(robot.instructions_at("", 7), Ok(()));
    assert_eq!(robot.last_move(), 5);
    assert_eq!(robot.instructions_at("?R", 8), Err(RobotError::InvalidInstruction('?')));
    assert_eq!(robot.last_move(), 5);
    robot.turn_right_at(9);
    assert_eq!(robot.last_move(), 9);
    robot.turn_left_at(3);
    assert_eq!(robot.last_move(), 3);
    assert_eq!(robot.instructions_at("AAL", 11), Ok(()));
    assert_eq!(robot.last_move(), 11);
}
