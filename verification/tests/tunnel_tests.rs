use tunnel::Tunnel;
use tunnel::TunnelBuilder;
use tunnel::TunnelBuilderChoice;
use tunnel::TunnelCellType;
use tunnel::TunnelIndex;
use tunnel::rows_to_loop_iterations;
use tunnel::two;

type Idx = u8;

const SIZE: Idx = 5;
const REPEAT_STEPS: Idx = 8;

struct MoveWallsPeriodically {
    b: bool,
    count: Idx,
    period: Idx,
}

impl TunnelBuilder for MoveWallsPeriodically {
    fn choose_player_start<T: TunnelIndex>(&mut self, max: T) -> T {
        if self.b {
            max.sat_sub(two())
        } else {
            T::from_small(1)
        }
    }

    fn choose_step(&mut self) -> TunnelBuilderChoice {
        if self.b && self.count < self.period {
            self.count += 1;
            TunnelBuilderChoice::MoveLeftWall
        } else if !self.b && self.count > 0 {
            self.count -= 1;
            TunnelBuilderChoice::MoveRightWall
        } else {
            self.b = !self.b;
            self.choose_step()
        }
    }
}

struct MoveWallsEvenly {
    b: bool,
}

impl TunnelBuilder for MoveWallsEvenly {
    fn choose_player_start<T: TunnelIndex>(&mut self, max: T) -> T {
        T::from_row_count(max.to_usize() / 2).unwrap()
    }

    fn choose_step(&mut self) -> TunnelBuilderChoice {
        self.b = !self.b;
        if self.b {
            TunnelBuilderChoice::MoveLeftWall
        } else {
            TunnelBuilderChoice::MoveRightWall
        }
    }
}

/// A builder that never narrows from the left: the gap may still shrink
/// by the automatic decrement, but the left wall never moves right.
struct NeverNarrows;

impl TunnelBuilder for NeverNarrows {
    fn choose_player_start<T: TunnelIndex>(&mut self, _max: T) -> T {
        T::from_small(0)
    }

    fn choose_step(&mut self) -> TunnelBuilderChoice {
        TunnelBuilderChoice::MoveRightWall
    }
}

/// A builder that always narrows from the left.
struct AlwaysNarrows;

impl TunnelBuilder for AlwaysNarrows {
    fn choose_player_start<T: TunnelIndex>(&mut self, _max: T) -> T {
        T::from_small(0)
    }

    fn choose_step(&mut self) -> TunnelBuilderChoice {
        TunnelBuilderChoice::MoveLeftWall
    }
}

fn get_first_row(t: &Tunnel<Idx>) -> Vec<TunnelCellType> {
    let mut cells = Vec::new();
    let mut it = t.iter();
    while let Some((row, _col, kind)) = it.next() {
        if row == 0 {
            cells.push(kind);
        }
    }
    cells
}

fn iter_count(t: &Tunnel<Idx>) -> usize {
    let mut n: usize = 0;
    let mut it = t.iter();
    while it.next().is_some() {
        n += 1;
    }
    n
}

#[test]
fn always_move_left_wall() {
    let mut builder = MoveWallsPeriodically {
        b: true,
        count: 0,
        period: rows_to_loop_iterations(SIZE),
    };
    let mut t = Tunnel::new(&mut builder, SIZE, SIZE);
    assert!(!t.is_collision());

    let expected = vec![
        TunnelCellType::Wall,
        TunnelCellType::Floor,
        TunnelCellType::Floor,
        TunnelCellType::Player,
        TunnelCellType::Wall,
    ];
    assert_eq!(expected, get_first_row(&t));

    for _ in 0..rows_to_loop_iterations(SIZE) {
        t.step(&mut builder);
    }
    assert!(!t.is_collision());

    let expected = vec![
        TunnelCellType::Wall,
        TunnelCellType::Wall,
        TunnelCellType::Wall,
        TunnelCellType::Player,
        TunnelCellType::Wall,
    ];
    assert_eq!(expected, get_first_row(&t));
}

#[test]
fn always_move_right_wall() {
    let mut builder = MoveWallsPeriodically {
        b: false,
        count: rows_to_loop_iterations(SIZE),
        period: rows_to_loop_iterations(SIZE),
    };
    let mut t = Tunnel::new(&mut builder, SIZE, SIZE);
    assert!(!t.is_collision());

    let expected = vec![
        TunnelCellType::Wall,
        TunnelCellType::Player,
        TunnelCellType::Floor,
        TunnelCellType::Floor,
        TunnelCellType::Wall,
    ];
    assert_eq!(expected, get_first_row(&t));

    for _ in 0..rows_to_loop_iterations(SIZE) {
        t.step(&mut builder);
    }
    assert!(!t.is_collision());

    let expected = vec![
        TunnelCellType::Wall,
        TunnelCellType::Player,
        TunnelCellType::Wall,
        TunnelCellType::Wall,
        TunnelCellType::Wall,
    ];
    assert_eq!(expected, get_first_row(&t));
}

#[test]
fn continue_steps_down_narrow_tunnel() {
    let mut builder = MoveWallsPeriodically {
        b: true,
        count: 0,
        period: rows_to_loop_iterations(SIZE),
    };
    let mut t = Tunnel::new(&mut builder, SIZE, SIZE);

    for _ in 0..REPEAT_STEPS {
        for _ in 0..rows_to_loop_iterations(SIZE) {
            t.step(&mut builder);
        }
        assert!(!t.is_collision());

        let expected = vec![
            TunnelCellType::Wall,
            TunnelCellType::Wall,
            TunnelCellType::Wall,
            TunnelCellType::Player,
            TunnelCellType::Wall,
        ];
        assert_eq!(expected, get_first_row(&t));

        for _ in 0..rows_to_loop_iterations(SIZE) {
            t.step(&mut builder);
        }
        assert!(t.is_collision());

        for _ in 0..rows_to_loop_iterations(SIZE) {
            t.move_player_left();
        }
        assert!(!t.is_collision());

        let expected = vec![
            TunnelCellType::Wall,
            TunnelCellType::Player,
            TunnelCellType::Wall,
            TunnelCellType::Wall,
            TunnelCellType::Wall,
        ];
        assert_eq!(expected, get_first_row(&t));

        for _ in 0..rows_to_loop_iterations(SIZE) {
            t.move_player_right();
        }
        assert!(t.is_collision());
    }
}

#[test]
fn no_underflow_on_invalid_tunnel_size_zero_rows() {
    let mut builder = MoveWallsEvenly { b: false };
    let mut t = Tunnel::new(&mut builder, 0, 0);
    assert!(!t.is_collision());
    assert!(get_first_row(&t).is_empty());
    assert_eq!(iter_count(&t), 0);

    t.step(&mut builder);
    assert!(t.is_collision());
    assert!(get_first_row(&t).is_empty());
    assert_eq!(iter_count(&t), 0);
}

#[test]
fn no_underflow_on_invalid_tunnel_size_zero_columns() {
    let mut builder = MoveWallsEvenly { b: false };
    let mut t = Tunnel::new(&mut builder, SIZE, 0);
    assert!(t.is_collision());
    assert!(get_first_row(&t).is_empty());
    assert_eq!(iter_count(&t), 0);

    t.step(&mut builder);
    assert!(t.is_collision());
    assert!(get_first_row(&t).is_empty());
    assert_eq!(iter_count(&t), 0);
}

#[test]
fn no_underflow_on_invalid_tunnel_size_one() {
    let mut builder = MoveWallsEvenly { b: true };
    let mut t = Tunnel::new(&mut builder, 1, 1);
    assert!(!t.is_collision());
    assert!(get_first_row(&t).is_empty());

    t.step(&mut builder);
    assert!(t.is_collision());
    assert_eq!(vec![TunnelCellType::Player], get_first_row(&t));
}

#[test]
fn no_underflow_on_invalid_tunnel_size_two() {
    let mut builder = MoveWallsEvenly { b: true };
    let mut t = Tunnel::new(&mut builder, 2, 2);
    assert!(!t.is_collision());
    assert!(get_first_row(&t).is_empty());

    t.step(&mut builder);
    assert!(t.is_collision());

    let expected = vec![TunnelCellType::Wall, TunnelCellType::Player];
    assert_eq!(expected, get_first_row(&t));
}

#[test]
fn no_underflow_on_small_yet_valid_tunnel_size_three() {
    let mut builder = MoveWallsEvenly { b: true };
    let mut t = Tunnel::new(&mut builder, 3, 3);
    assert!(!t.is_collision());
    assert!(get_first_row(&t).is_empty());

    let expected = vec![
        TunnelCellType::Wall,
        TunnelCellType::Player,
        TunnelCellType::Wall,
    ];

    for _ in 0..REPEAT_STEPS {
        t.step(&mut builder);
        assert!(!t.is_collision());
        assert_eq!(expected, get_first_row(&t));
    }
}

#[test]
fn no_overflow_on_tunnel_size_greater_than_u8_max() {
    let mut builder = MoveWallsEvenly { b: true };
    // rows and columns that barely fit into Tunnel<u8>
    let mut t = Tunnel::<u8>::new(&mut builder, u8::MAX, u8::MAX);
    // precondition: the tunnel initially looks reasonable
    let mut it = t.iter();
    assert!(it.next().is_some());
    let u8_max_as_usize = Into::<usize>::into(u8::MAX);
    assert_eq!(iter_count(&t) / u8_max_as_usize, (u8::MAX - 2).into());
    // grow the buffer past what the index type can count
    for _ in 0..3 {
        t.add_one_row(&mut builder);
    }
    // the row count no longer fits a u8, so the enumeration is empty
    // rather than wrapping around
    let mut it = t.iter();
    assert!(it.next().is_none());
}

#[test]
fn fresh_front_row_passable_exactly_between_walls() {
    // With any builder, the front row right after construction is the
    // seed row: passable exactly on columns 1 ..= width - 2, and both
    // boundary columns collide.
    let mut builder = NeverNarrows;
    let mut t = Tunnel::<u8>::new(&mut builder, SIZE, SIZE);
    let expected_collision = [true, false, false, false, true];
    for c in 0..SIZE {
        assert_eq!(t.is_collision(), expected_collision[c as usize]);
        t.move_player_right();
    }
}

#[test]
fn gap_never_closes_for_any_choice_sequence() {
    // However long the corridor narrows, every buffered row keeps at
    // least one passable column.
    let mut builder = AlwaysNarrows;
    let mut t = Tunnel::<u8>::new(&mut builder, 11, 9);
    for _ in 0..40 {
        t.step(&mut builder);
        let mut floors_by_row = [0usize; 9];
        let mut rows_seen: usize = 0;
        let mut it = t.iter();
        while let Some((row, _col, kind)) = it.next() {
            let r = row as usize;
            if r + 1 > rows_seen {
                rows_seen = r + 1;
            }
            if kind != TunnelCellType::Wall {
                floors_by_row[r] += 1;
            }
        }
        assert_eq!(rows_seen, 9);
        for r in 0..rows_seen {
            assert!(floors_by_row[r] >= 1);
        }
    }
}

#[test]
fn move_player_left_saturates_at_zero() {
    let mut builder = MoveWallsEvenly { b: true };
    let mut t = Tunnel::<u8>::new(&mut builder, SIZE, SIZE);
    for _ in 0..10 {
        t.move_player_left();
    }
    assert_eq!(get_first_row(&t)[0], TunnelCellType::Player);
    t.move_player_left();
    assert_eq!(get_first_row(&t)[0], TunnelCellType::Player);
}

#[test]
fn move_player_right_saturates_at_index_max() {
    // Width 255: the seed front row is passable on 1 ..= 253. Starting
    // from the middle, 300 moves right must pin the player at 255 (a
    // wrapping implementation would land inside the corridor). One move
    // left reaches 254, still in the wall; the second reaches 253, the
    // last passable column.
    let mut builder = MoveWallsEvenly { b: true };
    let mut t = Tunnel::<u8>::new(&mut builder, SIZE, u8::MAX);
    for _ in 0..300 {
        t.move_player_right();
    }
    assert!(t.is_collision());
    t.move_player_left();
    assert!(t.is_collision());
    t.move_player_left();
    assert!(!t.is_collision());
}

#[test]
fn short_tunnel_buffer_stays_empty_until_first_step() {
    for h in 0..3u8 {
        let mut builder = MoveWallsEvenly { b: true };
        let mut t = Tunnel::<u8>::new(&mut builder, h, 9);
        assert!(!t.is_collision());
        assert_eq!(iter_count(&t), 0);
        t.step(&mut builder);
        assert_eq!(iter_count(&t), 9);
    }
}

#[test]
fn zero_width_collides_after_first_step() {
    let mut builder = NeverNarrows;
    let mut t = Tunnel::<u8>::new(&mut builder, 1, 0);
    assert!(!t.is_collision());
    t.step(&mut builder);
    assert!(t.is_collision());
    assert_eq!(iter_count(&t), 0);
}

#[test]
fn prefill_count_is_three_less_than_height() {
    assert_eq!(rows_to_loop_iterations(0u8), 0);
    assert_eq!(rows_to_loop_iterations(3u8), 0);
    assert_eq!(rows_to_loop_iterations(5u8), 2);
    assert_eq!(rows_to_loop_iterations(300u16), 297);
}

#[test]
fn index_operations_saturate_and_convert() {
    assert_eq!(250u8.sat_add(10), 255);
    assert_eq!(3u8.sat_sub(7), 0);
    assert_eq!(two::<u16>(), 2);
    assert_eq!(tunnel::three::<u16>(), 3);
    assert_eq!(u8::from_row_count(300), None);
    assert_eq!(u16::from_row_count(300), Some(300));
    assert_eq!(usize::from_row_count(300), Some(300));
}

#[test]
fn enumeration_is_row_major_and_restartable() {
    let mut builder = MoveWallsEvenly { b: true };
    let t = Tunnel::<u8>::new(&mut builder, 5, 4);
    let mut first_pass = Vec::new();
    let mut it = t.iter();
    while let Some(cell) = it.next() {
        first_pass.push(cell);
    }
    assert_eq!(first_pass.len(), 3 * 4);
    let mut expected_positions = Vec::new();
    for row in 0..3u8 {
        for col in 0..4u8 {
            expected_positions.push((row, col));
        }
    }
    let positions: Vec<(u8, u8)> = first_pass.iter().map(|c| (c.0, c.1)).collect();
    assert_eq!(positions, expected_positions);
    // a second pass yields the same sequence
    let mut second_pass = Vec::new();
    let mut it = t.iter();
    while let Some(cell) = it.next() {
        second_pass.push(cell);
    }
    assert_eq!(first_pass, second_pass);
}
