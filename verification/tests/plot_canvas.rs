use odesolvers::plot::Plot;
use odesolvers::plot_utils::Cell;
use odesolvers::vector::Vec3;

const FRONT: Vec3<u8> = Vec3 { x: 0, y: 0, z: 255 };
const BACK: Vec3<u8> = Vec3 { x: 220, y: 220, z: 220 };

#[test]
fn fresh_plot_is_blank_in_default_colours() {
    let plot = Plot::build(2, 3);
    assert_eq!(plot.plot().height, 8);
    assert_eq!(plot.plot().width, 6);
    assert_eq!(plot.plot().buff.len(), 48);
    for cell in &plot.plot().buff {
        assert!(*cell == Cell { front: FRONT, back: BACK, active: false });
    }
}

#[test]
fn first_display_wipes_the_terminal() {
    let mut plot = Plot::build(1, 2);
    assert_eq!(
        plot.display(),
        "\x1b[2J\x1b[H\x1b[?25l\x1b[38;2;0;0;255m\x1b[48;2;220;220;220m\x1b[38;2;0;0;0m\u{2800}\u{2800}\n\x1b[?25h\x1b[0m"
    );
}

#[test]
fn plotted_point_takes_the_colours_of_the_brush() {
    let mut plot = Plot::build(1, 1);
    plot.set_brush().front_color(1, 2, 3).back_color(4, 5, 6);
    assert!(plot.plot_point(1, 2));
    assert!(!plot.plot_point(2, 0));
    assert!(!plot.plot_point(0, 4));
    let drawn = Cell { front: Vec3::build(1, 2, 3), back: Vec3::build(4, 5, 6), active: true };
    for (i, cell) in plot.plot().buff.iter().enumerate() {
        if i == 2 * 2 + 1 {
            assert!(*cell == drawn);
        } else {
            assert!(*cell == Cell { front: FRONT, back: BACK, active: false });
        }
    }
}

#[test]
fn clear_wipes_cells_and_text_with_the_brush() {
    let mut plot = Plot::build(1, 1);
    plot.plot_point(0, 0);
    plot.set_brush().back_color(9, 9, 9);
    plot.clear();
    for cell in &plot.plot().buff {
        assert!(*cell == Cell { front: FRONT, back: Vec3::build(9, 9, 9), active: false });
    }
    plot.brush_default();
    assert_eq!(
        plot.display(),
        "\x1b[H\x1b[?25l\x1b[38;2;0;0;255m\x1b[48;2;220;220;220m\x1b[38;2;0;0;0m\x1b[48;2;9;9;9m\u{2800}\n\x1b[?25h\x1b[0m"
    );
}

#[test]
fn plotted_line_draws_every_point_of_the_trace() {
    let mut plot = Plot::build(2, 2);
    plot.plot_line(0, 0, 3, 7);
    let expected = [(0, 0), (0, 1), (1, 2), (1, 3), (2, 4), (2, 5), (3, 6), (3, 7)];
    for y in 0..8 {
        for x in 0..4 {
            let cell = plot.plot().get(x, y).unwrap();
            assert_eq!(cell.active, expected.contains(&(x, y)));
        }
    }
    let mut cut = Plot::build(1, 1);
    cut.plot_line(1, 1, 5, 1);
    assert_eq!(cut.plot().buff.iter().filter(|cell| cell.active).count(), 1);
    assert!(cut.plot().get(1, 1).unwrap().active);
}

#[test]
fn display_averages_colours_and_switches_them_only_on_change() {
    let mut plot = Plot::build(2, 2);
    plot.clear();
    plot.set_brush().front_color(255, 0, 0);
    plot.plot_line(0, 0, 3, 7);
    plot.set_brush().front_color(0, 255, 0).back_color(10, 20, 30);
    plot.plot_point(0, 0);
    plot.plot_point(3, 0);
    plot.plot_point(9, 9);
    let shown = plot.display();
    assert_eq!(
        shown,
        "\x1b[H\x1b[?25l\x1b[38;2;0;255;0m\x1b[48;2;10;20;30m\x1b[38;2;191;63;0m\x1b[48;2;193;195;196m\u{28a3}\x1b[38;2;0;255;0m\u{2808}\n\x1b[38;2;0;0;0m\x1b[48;2;220;220;220m\u{2800}\x1b[38;2;255;0;0m\u{28a3}\n\x1b[?25h\x1b[0m"
    );
    // without a clear in between, the next display adds to the text
    let again = plot.display();
    assert_eq!(again, format!("{}{}", shown, shown));
}

#[test]
fn plot_without_area_displays_only_the_frame() {
    let mut plot = Plot::build(0, 0);
    plot.clear();
    assert_eq!(
        plot.display(),
        "\x1b[H\x1b[?25l\x1b[38;2;0;0;255m\x1b[48;2;220;220;220m\x1b[?25h\x1b[0m"
    );
    let mut rows_only = Plot::build(2, 0);
    rows_only.clear();
    assert_eq!(
        rows_only.display(),
        "\x1b[H\x1b[?25l\x1b[38;2;0;0;255m\x1b[48;2;220;220;220m\n\n\x1b[?25h\x1b[0m"
    );
}
