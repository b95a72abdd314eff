use mall_raycaster::maze::{is_open, parse_maze, tile_at};
use mall_raycaster::player::{process_events, read_controls, Controls, StepOutcome, Stride};
use mall_raycaster::render::{sprite_texel, wall_cells};

fn chars(s: &str) -> Vec<char> {
    s.chars().collect()
}

fn no_controls() -> Controls {
    Controls {
        key_left: false,
        key_a: false,
        key_right: false,
        key_d: false,
        key_up: false,
        key_w: false,
        key_down: false,
        key_s: false,
        mouse_left: false,
        mouse_right: false,
    }
}

fn small_maze() -> Vec<Vec<char>> {
    parse_maze(&chars("+-+\n| g\n+ +\n"))
}

#[test]
fn parse_splits_lines_and_drops_crlf() {
    let m = parse_maze(&chars("ab\r\nc\n\nd"));
    assert_eq!(m, vec![vec!['a', 'b'], vec!['c'], vec![], vec!['d']]);
}

#[test]
fn parse_trailing_newline_adds_no_row() {
    assert_eq!(parse_maze(&chars("x\n")), vec![vec!['x']]);
    assert_eq!(parse_maze(&chars("")), Vec::<Vec<char>>::new());
    assert_eq!(parse_maze(&chars("\n")), vec![Vec::<char>::new()]);
}

#[test]
fn parse_keeps_carriage_return_without_newline() {
    assert_eq!(parse_maze(&chars("a\r")), vec![vec!['a', '\r']]);
}

#[test]
fn tiles_and_open_cells() {
    let m = small_maze();
    assert_eq!(tile_at(&m, 2, 1), Some('g'));
    assert_eq!(tile_at(&m, 1, 1), Some(' '));
    assert_eq!(tile_at(&m, 3, 1), None);
    assert_eq!(tile_at(&m, 3, 0), None);
    assert_eq!(tile_at(&m, 0, 3), None);
    assert!(is_open(&m, 1, 1));
    assert!(!is_open(&m, 0, 1));
    assert!(!is_open(&m, 2, 1));
    assert!(!is_open(&m, 7, 7));
}

#[test]
fn controls_give_turns_and_strides_in_order() {
    let mut c = no_controls();
    c.key_a = true;
    c.key_w = true;
    c.key_s = true;
    c.mouse_right = true;
    let i = read_controls(&c);
    assert!(i.turn_left);
    assert!(!i.turn_right);
    assert_eq!(i.strides, vec![Stride::Forward, Stride::Backward, Stride::Backward]);

    let mut c = no_controls();
    c.key_right = true;
    c.mouse_left = true;
    let i = read_controls(&c);
    assert!(!i.turn_left);
    assert!(i.turn_right);
    assert_eq!(i.strides, vec![Stride::Forward]);
}

#[test]
fn no_stride_means_no_step() {
    let m = small_maze();
    let i = read_controls(&no_controls());
    assert_eq!(process_events(&i, &m, 1, 1, true), StepOutcome::Stay);
    assert_eq!(process_events(&i, &m, 2, 1, true), StepOutcome::Stay);
}

#[test]
fn steps_land_only_on_corridors() {
    let m = small_maze();
    let mut c = no_controls();
    c.key_up = true;
    let i = read_controls(&c);
    assert_eq!(process_events(&i, &m, 1, 1, false), StepOutcome::Advance);
    assert_eq!(process_events(&i, &m, 0, 1, false), StepOutcome::Stay);
    assert_eq!(process_events(&i, &m, 9, 1, true), StepOutcome::Stay);
    assert_eq!(process_events(&i, &m, 1, 9, true), StepOutcome::Stay);
}

#[test]
fn goal_needs_unlocking() {
    let m = small_maze();
    let mut c = no_controls();
    c.mouse_left = true;
    let i = read_controls(&c);
    assert_eq!(process_events(&i, &m, 2, 1, false), StepOutcome::Stay);
    assert_eq!(process_events(&i, &m, 2, 1, true), StepOutcome::GoalReached);
}

#[test]
fn walls_are_listed_row_by_row() {
    let m = parse_maze(&chars("# #\n  x\n"));
    assert_eq!(wall_cells(&m), vec![(0, 0), (2, 0), (2, 1)]);
    assert_eq!(wall_cells(&Vec::new()), Vec::<(usize, usize)>::new());
}

#[test]
fn texels_stretch_over_the_sprite() {
    assert_eq!(sprite_texel(0, 256), 0);
    assert_eq!(sprite_texel(1, 256), 0);
    assert_eq!(sprite_texel(2, 256), 1);
    assert_eq!(sprite_texel(255, 256), 127);
    assert_eq!(sprite_texel(10, 64), 20);
    assert_eq!(sprite_texel(0, 1), 0);
    assert_eq!(sprite_texel(2, 3), 85);
}
