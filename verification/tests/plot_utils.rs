use odesolvers::plot_utils::Brush;
use odesolvers::plot_utils::Buffer;
use odesolvers::plot_utils::Cell;
use odesolvers::plot_utils::Color;
use odesolvers::plot_utils::Interval;
use odesolvers::plot_utils::LineTracer;
use odesolvers::scalar::Floating;
use odesolvers::vector::Vec3;

#[derive(Clone, Copy, Debug, PartialEq)]
struct Single(f32);

impl Floating for Single {
    fn floatify(mantissa: i64, exponent: i32) -> Self {
        Single(format!("{}e{}", mantissa, exponent).parse::<f32>().unwrap())
    }

    fn plus(self, rhs: Self) -> Self {
        Single(self.0 + rhs.0)
    }

    fn minus(self, rhs: Self) -> Self {
        Single(self.0 - rhs.0)
    }

    fn times(self, rhs: Self) -> Self {
        Single(self.0 * rhs.0)
    }

    fn over(self, rhs: Self) -> Self {
        Single(self.0 / rhs.0)
    }

    fn less_than(self, rhs: Self) -> bool {
        self.0 < rhs.0
    }

    fn at_most(self, rhs: Self) -> bool {
        self.0 <= rhs.0
    }
}

fn trace(x0: isize, y0: isize, x1: isize, y1: isize) -> Vec<(isize, isize)> {
    LineTracer::build(x0, y0, x1, y1).points()
}

#[test]
fn grid_is_filled_and_stored_row_by_row() {
    let mut grid = Buffer::build(2, 3, 0_u8);
    assert_eq!(grid.height, 2);
    assert_eq!(grid.width, 3);
    assert_eq!(grid.buff, vec![0; 6]);
    assert!(grid.set(1, 0, 7));
    assert!(grid.set(2, 1, 9));
    assert_eq!(grid.buff, vec![0, 7, 0, 0, 0, 9]);
    assert_eq!(grid.get(1, 0), Some(7));
    assert_eq!(grid.get(2, 1), Some(9));
    assert_eq!(grid.get(0, 1), Some(0));
    assert_eq!(grid.get_unchecked(2, 1), 9);
}

#[test]
fn grid_ignores_cells_off_its_edges() {
    let mut grid = Buffer::build(2, 3, 0_u8);
    assert!(!grid.set(3, 0, 1));
    assert!(!grid.set(0, 2, 1));
    assert!(!grid.set(usize::MAX, usize::MAX, 1));
    assert_eq!(grid.buff, vec![0; 6]);
    assert_eq!(grid.get(3, 0), None);
    assert_eq!(grid.get(0, 2), None);
    let empty = Buffer::build(0, 5, 1_u8);
    assert!(empty.buff.is_empty());
    assert_eq!(empty.get(0, 0), None);
}

#[test]
fn shallow_line_moves_one_column_per_point() {
    assert_eq!(trace(0, 0, 5, 2), vec![(0, 0), (1, 0), (2, 1), (3, 1), (4, 2), (5, 2)]);
    assert_eq!(
        trace(-3, 1, 4, 1),
        vec![(-3, 1), (-2, 1), (-1, 1), (0, 1), (1, 1), (2, 1), (3, 1), (4, 1)]
    );
}

#[test]
fn steep_line_moves_one_row_per_point() {
    assert_eq!(
        trace(0, 0, 2, 7),
        vec![(0, 0), (0, 1), (1, 2), (1, 3), (1, 4), (1, 5), (2, 6), (2, 7)]
    );
    assert_eq!(trace(2, 2, 2, -2), vec![(2, 2), (2, 1), (2, 0), (2, -1), (2, -2)]);
}

#[test]
fn line_towards_smaller_coordinates_and_diagonal() {
    assert_eq!(trace(3, 3, -1, 0), vec![(3, 3), (2, 2), (1, 1), (0, 1), (-1, 0)]);
    assert_eq!(trace(0, 0, 3, 3), vec![(0, 0), (1, 1), (2, 2), (3, 3)]);
}

#[test]
fn line_of_one_point() {
    assert_eq!(trace(4, -4, 4, -4), vec![(4, -4)]);
    let mut tracer = LineTracer::build(4, -4, 4, -4);
    assert_eq!(tracer.step(), Some((4, -4)));
    assert_eq!(tracer.step(), None);
    assert_eq!(tracer.step(), None);
    assert!(tracer.points().is_empty());
}

#[test]
fn tracer_hands_out_points_one_at_a_time() {
    let mut tracer = LineTracer::build(0, 0, 5, 2);
    assert_eq!(tracer.step(), Some((0, 0)));
    assert_eq!(tracer.next(), Some((1, 0)));
    assert_eq!(tracer.points(), vec![(2, 1), (3, 1), (4, 2), (5, 2)]);
    let mut done = LineTracer::build(0, 0, 1, 0);
    assert_eq!(done.next(), Some((0, 0)));
    assert_eq!(done.next(), Some((1, 0)));
    assert_eq!(done.next(), None);
}

#[test]
fn every_line_ends_at_its_end_and_moves_by_single_cells() {
    for x1 in -6..=6_isize {
        for y1 in -6..=6_isize {
            let points = trace(1, -2, x1, y1);
            let span = (x1 - 1).abs().max((y1 + 2).abs()) as usize;
            assert_eq!(points.len(), span + 1);
            assert_eq!(points[0], (1, -2));
            assert_eq!(points[span], (x1, y1));
            for pair in points.windows(2) {
                let (dx, dy) = (pair[1].0 - pair[0].0, pair[1].1 - pair[0].1);
                assert!(dx.abs() <= 1 && dy.abs() <= 1 && (dx, dy) != (0, 0));
            }
        }
    }
}

#[test]
fn long_line_near_the_coordinate_limit() {
    let limit = isize::MAX / 8;
    let mut tracer = LineTracer::build(-limit, limit, limit, -limit);
    assert_eq!(tracer.step(), Some((-limit, limit)));
    assert_eq!(tracer.step(), Some((-limit + 1, limit - 1)));
}

#[test]
fn interval_is_closed_below_and_open_above() {
    let interval = Interval::build(Single(-10.0), Single(30.0));
    assert_eq!(interval.min, Single(-10.0));
    assert_eq!(interval.max, Single(30.0));
    assert!(interval.contains(Single(-10.0)));
    assert!(interval.contains(Single(0.0)));
    assert!(!interval.contains(Single(30.0)));
    assert!(!interval.contains(Single(-10.5)));
    assert!(!interval.contains(Single(f32::NAN)));
}

#[test]
fn normalized_coordinate_is_the_fraction_of_the_interval() {
    let interval = Interval::build(Single(-10.0), Single(30.0));
    assert_eq!(interval.normalized_coordinate(Single(-10.0)), Single(0.0));
    assert_eq!(interval.normalized_coordinate(Single(0.0)), Single(0.25));
    assert_eq!(interval.normalized_coordinate(Single(30.0)), Single(1.0));
    assert_eq!(interval.normalized_coordinate(Single(50.0)), Single(1.5));
}

#[test]
fn brush_colors_can_be_chained() {
    let mut brush = Brush::build(Vec3::build(0, 0, 255), Vec3::build(220, 220, 220));
    assert_eq!(brush.front, Vec3 { x: 0, y: 0, z: 255 });
    assert_eq!(brush.back, Vec3 { x: 220, y: 220, z: 220 });
    brush.front_color(1, 2, 3).back_color(4, 5, 6);
    assert_eq!(brush.front, Vec3 { x: 1, y: 2, z: 3 });
    assert_eq!(brush.back, Vec3 { x: 4, y: 5, z: 6 });
    brush.back_color(7, 8, 9);
    assert_eq!(brush.front, Vec3 { x: 1, y: 2, z: 3 });
    assert_eq!(brush.back, Vec3 { x: 7, y: 8, z: 9 });
}

#[test]
fn built_cell_is_active() {
    let cell = Cell::build(Vec3::build(1, 2, 3), Vec3::build(4, 5, 6));
    assert!(cell.active);
    assert_eq!(cell.front, Vec3 { x: 1, y: 2, z: 3 });
    assert_eq!(cell.back, Vec3 { x: 4, y: 5, z: 6 });
    assert!(cell == Cell { front: cell.front, back: cell.back, active: true });
}

#[test]
fn colors_become_terminal_escape_sequences() {
    let color: Color = Vec3::build(0, 7, 255);
    assert_eq!(color.to_ansi_front(), "\x1b[38;2;0;7;255m");
    assert_eq!(color.to_ansi_back(), "\x1b[48;2;0;7;255m");
    assert_eq!(Vec3::build(100_u8, 10, 99).to_ansi_front(), "\x1b[38;2;100;10;99m");
    assert_eq!(Vec3::build(9_u8, 200, 109).to_ansi_back(), "\x1b[48;2;9;200;109m");
}

#[test]
fn every_component_value_is_written_in_decimal() {
    for value in 0..=255_u8 {
        let color: Color = Vec3::build(value, 255 - value, value / 2);
        let expected = format!("\x1b[38;2;{};{};{}m", value, 255 - value, value / 2);
        assert_eq!(color.to_ansi_front(), expected);
    }
}
