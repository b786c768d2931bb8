use rust_rover::Coordinate;
use rust_rover::Direction::{self, E, N, S, W};
use rust_rover::Instruction::{self, Forward, RotateCCW, RotateCW};
use rust_rover::{Position, Rover};

const ALL: [Direction; 4] = [N, S, E, W];

#[test]
fn rotate_cw_cycle() {
    assert_eq!(N.rotate_cw(), E);
    assert_eq!(E.rotate_cw(), S);
    assert_eq!(S.rotate_cw(), W);
    assert_eq!(W.rotate_cw(), N);
}

#[test]
fn rotate_ccw_cycle() {
    assert_eq!(N.rotate_ccw(), W);
    assert_eq!(W.rotate_ccw(), S);
    assert_eq!(S.rotate_ccw(), E);
    assert_eq!(E.rotate_ccw(), N);
}

#[test]
fn rotations_undo_each_other() {
    for d in ALL {
        assert_eq!(d.rotate_ccw().rotate_cw(), d);
        assert_eq!(d.rotate_cw().rotate_ccw(), d);
    }
}

#[test]
fn four_rotations_return() {
    for d in ALL {
        assert_eq!(d.rotate_cw().rotate_cw().rotate_cw().rotate_cw(), d);
        assert_eq!(d.rotate_ccw().rotate_ccw().rotate_ccw().rotate_ccw(), d);
        assert_ne!(d.rotate_cw(), d);
        assert_ne!(d.rotate_cw().rotate_cw(), d);
        assert_ne!(d.rotate_cw().rotate_cw().rotate_cw(), d);
    }
}

#[test]
fn position_add() {
    assert_eq!(Position(1, 1).add(Position(3, 4)), Position(4, 5));
}

#[test]
fn position_sub() {
    assert_eq!(Position(3, 4).sub(Position(1, 1)), Position(2, 3));
}

#[test]
fn position_add_then_sub() {
    let p: Position<i64> = Position(-7, 12);
    let q: Position<i64> = Position(30, -5);
    assert_eq!(p.add(q).sub(q), p);
    let pu: Position<u8> = Position(200, 3);
    let qu: Position<u8> = Position(55, 0);
    assert_eq!(pu.add(qu), Position(255, 3));
    assert_eq!(pu.add(qu).sub(qu), pu);
}

#[test]
fn position_add_direction() {
    assert_eq!(Position(1, 1).add_direction(N), Position(1, 2));
    assert_eq!(Position(1, 1).add_direction(S), Position(1, 0));
    assert_eq!(Position(1, 1).add_direction(E), Position(2, 1));
    assert_eq!(Position(1, 1).add_direction(W), Position(0, 1));
}

#[test]
fn step_then_step_back() {
    let p: Position<i32> = Position(5, -3);
    let back = [(N, S), (S, N), (E, W), (W, E)];
    for (d, o) in back {
        assert_eq!(p.add_direction(d).add_direction(o), p);
    }
}

#[test]
fn coordinate_identities() {
    assert_eq!(<i8 as Coordinate>::zero_value(), 0);
    assert_eq!(<i8 as Coordinate>::one_value(), 1);
    assert_eq!(<u128 as Coordinate>::zero_value(), 0);
    assert_eq!(<u128 as Coordinate>::one_value(), 1);
    assert_eq!(<i64 as Coordinate>::one_value().plus(41), 42);
    assert_eq!(<u16 as Coordinate>::one_value().minus(1), 0);
}

#[test]
fn parse_single_codes() {
    assert_eq!(Instruction::try_from('F'), Ok(Forward));
    assert_eq!(Instruction::try_from('R'), Ok(RotateCW));
    assert_eq!(Instruction::try_from('L'), Ok(RotateCCW));
    assert_eq!(Instruction::try_from('w'), Err('w'));
    assert_eq!(Instruction::try_from('f'), Err('f'));
}

#[test]
fn parse_string_ok() {
    assert_eq!(
        Instruction::from_string("FFRL"),
        Ok(vec![Forward, Forward, RotateCW, RotateCCW])
    );
}

#[test]
fn parse_string_first_error() {
    assert_eq!(Instruction::from_string("FFRasdfL"), Err('a'));
    assert_eq!(Instruction::from_string("xF"), Err('x'));
    assert_eq!(Instruction::from_string("FRLé"), Err('é'));
}

#[test]
fn parse_empty_string() {
    assert_eq!(Instruction::from_string(""), Ok(vec![]));
}

#[test]
fn execute_single_steps() {
    let rover = Rover::new(Position(0, 0), N);
    assert_eq!(rover.execute(Forward), Rover::new(Position(0, 1), N));
    assert_eq!(rover.execute(RotateCW), Rover::new(Position(0, 0), E));
    assert_eq!(rover.execute(RotateCCW), Rover::new(Position(0, 0), W));
}

#[test]
fn execute_many_from_string() {
    let rover = Rover::new(Position(0, 0), N);
    let instructions = Instruction::from_string("FRFFLF").unwrap();
    assert_eq!(rover.execute_many(&instructions), Rover::new(Position(2, 2), N));
}

#[test]
fn execute_many_listed() {
    let rover = Rover::new(Position(0, 0), Direction::N);
    let instructions = vec![Forward, RotateCW, Forward, Forward, RotateCCW, Forward];
    assert_eq!(rover.execute_many(&instructions), Rover::new(Position(2, 2), N));
}

#[test]
fn execute_many_wide_coordinates() {
    let rover = Rover::new(Position(123456789123456789u64, 0), N);
    let instructions = Instruction::from_string("FRFFLF").unwrap();
    assert_eq!(
        rover.execute_many(&instructions),
        Rover::new(Position(123456789123456791u64, 2), N)
    );
}

#[test]
fn execute_many_empty() {
    let rover = Rover::new(Position(-4i16, 9), W);
    assert_eq!(rover.execute_many(&[]), rover);
}

#[test]
fn execute_many_concatenation() {
    let rover = Rover::new(Position(3i32, -2), S);
    let a = vec![Forward, RotateCCW, Forward];
    let b = vec![RotateCCW, RotateCCW, Forward, RotateCW, Forward];
    let mut ab = a.clone();
    ab.extend_from_slice(&b);
    let whole = rover.execute_many(&ab);
    assert_eq!(whole, rover.execute_many(&a).execute_many(&b));
    assert_eq!(whole, Rover::new(Position(3, -2), N));
}

#[test]
fn rover_fields() {
    let rover = Rover::new(Position(7u32, 8), E).execute(Forward);
    assert_eq!(rover.position, Position(8, 8));
    assert_eq!(rover.direction, E);
}
