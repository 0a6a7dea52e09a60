use term_life::board::{dead_grid, display_alive, Board};
use term_life::help::{center_col, show};
use term_life::machine::{startup_dims, status_hint, step, tick, Button, Effect, Event, State};

const FULL: char = '\u{2588}';
const UPPER: char = '\u{2580}';
const LOWER: char = '\u{2584}';

fn board_from(pattern: Vec<Vec<bool>>) -> Board {
    let mut b = Board::new(1, 1);
    b.edit(pattern);
    b
}

fn cells_of(b: &Board) -> Vec<Vec<bool>> {
    let mut rows: Vec<Vec<bool>> = Vec::new();
    for i in 0..b.height() {
        let mut row: Vec<bool> = Vec::new();
        for j in 0..b.width() {
            row.push(b.is_alive(i, j));
        }
        rows.push(row);
    }
    rows
}

fn key(ch: char) -> Event {
    Event::Key { ch, ctrl: false }
}

#[test]
fn toroidal_single_cell_dies() {
    // a lone cell on a 3x3 torus sees itself in all eight directions: every
    // nine-cell sum is 1, so everything dies
    let mut g = vec![vec![false; 3]; 3];
    g[0][0] = true;
    let mut b = board_from(g);
    b.next();
    assert_eq!(cells_of(&b), vec![vec![false; 3]; 3]);
}

#[test]
fn toroidal_corner_birth() {
    // three live corners of a 4x4 torus are mutual neighbours through the
    // edges; the fourth corner is born and all four then hold each other
    let mut g = vec![vec![false; 4]; 4];
    g[0][0] = true;
    g[0][3] = true;
    g[3][0] = true;
    let mut b = board_from(g);
    b.next();
    let mut expect = vec![vec![false; 4]; 4];
    expect[0][0] = true;
    expect[0][3] = true;
    expect[3][0] = true;
    expect[3][3] = true;
    assert_eq!(cells_of(&b), expect);
}

fn block_6x6() -> Vec<Vec<bool>> {
    let mut g = vec![vec![false; 6]; 6];
    g[2][2] = true;
    g[2][3] = true;
    g[3][2] = true;
    g[3][3] = true;
    g
}

#[test]
fn block_is_still_life() {
    let mut b = board_from(block_6x6());
    b.next();
    assert_eq!(cells_of(&b), block_6x6());
    b.next();
    assert_eq!(cells_of(&b), block_6x6());
}

#[test]
fn block_is_still_life_on_smallest_grid() {
    let mut g = vec![vec![false; 4]; 4];
    g[0][0] = true;
    g[0][1] = true;
    g[1][0] = true;
    g[1][1] = true;
    let mut b = board_from(g.clone());
    b.next();
    assert_eq!(cells_of(&b), g);
}

#[test]
fn blinker_oscillates() {
    let mut hor = vec![vec![false; 5]; 5];
    hor[2][1] = true;
    hor[2][2] = true;
    hor[2][3] = true;
    let mut ver = vec![vec![false; 5]; 5];
    ver[1][2] = true;
    ver[2][2] = true;
    ver[3][2] = true;
    let mut b = board_from(hor.clone());
    b.next();
    assert_eq!(cells_of(&b), ver);
    b.next();
    assert_eq!(cells_of(&b), hor);
    assert_eq!(b.renders(), 2);
}

#[test]
fn reset_restores_constructed_pattern() {
    let mut b = Board::new(5, 6);
    let at_birth = cells_of(&b);
    b.next();
    b.next();
    b.next();
    b.reset();
    assert_eq!(cells_of(&b), at_birth);
    assert_eq!(b.renders(), 0);
    assert_eq!(b.width(), 5);
    assert_eq!(b.height(), 6);
}

#[test]
fn reset_restores_committed_pattern() {
    let mut b = Board::new(4, 4);
    let pattern = block_6x6();
    b.edit(pattern.clone());
    assert_eq!(b.renders(), 0);
    b.next();
    b.reset();
    assert_eq!(cells_of(&b), pattern);
    assert_eq!(b.renders(), 0);
}

#[test]
fn edit_changes_dimensions() {
    let mut b = Board::new(4, 4);
    let pattern = vec![
        vec![true, false, true, false, true, false, true],
        vec![false; 7],
        vec![true; 7],
    ];
    b.edit(pattern.clone());
    assert_eq!(b.width(), 7);
    assert_eq!(b.height(), 3);
    assert_eq!(cells_of(&b), pattern);
}

#[test]
fn render_single_alive_pixel_is_upper_half() {
    let rows = display_alive(&vec![vec![true]]);
    assert_eq!(rows, vec![vec![UPPER]]);
}

#[test]
fn render_full_pair() {
    let rows = display_alive(&vec![vec![true], vec![true]]);
    assert_eq!(rows, vec![vec![FULL]]);
}

#[test]
fn render_dead_pair_is_space() {
    let rows = display_alive(&vec![vec![false], vec![false]]);
    assert_eq!(rows, vec![vec![' ']]);
}

#[test]
fn render_lower_only() {
    let rows = display_alive(&vec![vec![false], vec![true]]);
    assert_eq!(rows, vec![vec![LOWER]]);
}

#[test]
fn render_pairs_rows_and_pads_odd_height() {
    let g = vec![
        vec![true, false],
        vec![true, true],
        vec![false, true],
    ];
    let rows = display_alive(&g);
    assert_eq!(rows, vec![vec![FULL, LOWER], vec![' ', UPPER]]);
}

#[test]
fn display_shows_live_buffer() {
    let mut g = vec![vec![false; 3]; 2];
    g[0][1] = true;
    let b = board_from(g.clone());
    assert_eq!(b.display(), display_alive(&g));
}

#[test]
fn edit_key_opens_all_dead_scratch() {
    let mut b = board_from(block_6x6());
    let before = cells_of(&b);
    let (s, eff) = step(State::Board, &mut b, key('e'), 6, 4);
    assert_eq!(eff, Effect::Proceed);
    match s {
        State::Edit(a) => {
            assert_eq!(a, vec![vec![false; 6]; 6]);
        }
        _ => panic!("expected the editing mode"),
    }
    assert_eq!(cells_of(&b), before);
}

#[test]
fn back_key_discards_scratch() {
    let mut b = board_from(block_6x6());
    let before = cells_of(&b);
    let mut scratch = dead_grid(6, 6);
    scratch[0][0] = true;
    let (s, eff) = step(State::Edit(scratch), &mut b, key('b'), 6, 4);
    assert_eq!(eff, Effect::Proceed);
    assert!(matches!(s, State::Board));
    assert_eq!(cells_of(&b), before);
    assert_eq!(b.width(), 6);
    assert_eq!(b.height(), 6);
}

#[test]
fn save_key_commits_scratch() {
    let mut b = board_from(block_6x6());
    let mut scratch = dead_grid(3, 4);
    scratch[1][2] = true;
    let expected = scratch.clone();
    let (s, eff) = step(State::Edit(scratch), &mut b, key('s'), 6, 4);
    assert_eq!(eff, Effect::Proceed);
    assert!(matches!(s, State::Board));
    assert_eq!(b.width(), 3);
    assert_eq!(b.height(), 4);
    assert_eq!(b.renders(), 0);
    assert_eq!(cells_of(&b), expected);
    // the commit also becomes the reset baseline
    let mut b2 = b;
    b2.next();
    b2.reset();
    assert_eq!(cells_of(&b2), expected);
}

#[test]
fn quit_events_end_the_session() {
    let mut b = Board::new(3, 3);
    let (_, eff) = step(State::Board, &mut b, Event::Escape, 3, 3);
    assert_eq!(eff, Effect::Quit);
    let (_, eff) = step(State::Help, &mut b, key('q'), 3, 3);
    assert_eq!(eff, Effect::Quit);
    let (_, eff) = step(State::Board, &mut b, Event::Key { ch: 'c', ctrl: true }, 3, 3);
    assert_eq!(eff, Effect::Quit);
    // a plain 'c' is an ordinary ignored key
    let (s, eff) = step(State::Board, &mut b, key('c'), 3, 3);
    assert_eq!(eff, Effect::Proceed);
    assert!(matches!(s, State::Board));
}

#[test]
fn help_key_clears_and_switches() {
    let mut b = Board::new(3, 3);
    let (s, eff) = step(State::Board, &mut b, key('h'), 3, 3);
    assert_eq!(eff, Effect::ClearScreen);
    assert!(matches!(s, State::Help));
    let (s, eff) = step(State::Edit(dead_grid(2, 2)), &mut b, key('h'), 3, 3);
    assert_eq!(eff, Effect::ClearScreen);
    assert!(matches!(s, State::Help));
}

#[test]
fn reset_key_acts_only_while_running() {
    let mut b = board_from(block_6x6());
    b.next();
    let (s, _) = step(State::Help, &mut b, key('r'), 6, 4);
    assert!(matches!(s, State::Help));
    assert_eq!(b.renders(), 1);
    let (s, _) = step(State::Board, &mut b, key('r'), 6, 4);
    assert!(matches!(s, State::Board));
    assert_eq!(b.renders(), 0);
    assert_eq!(cells_of(&b), block_6x6());
}

#[test]
fn left_click_toggles_lower_pixel() {
    let mut b = Board::new(3, 3);
    let scratch = dead_grid(3, 4);
    let e = Event::Mouse { button: Button::Left, col: 1, row: 1 };
    let (s, _) = step(State::Edit(scratch), &mut b, e, 3, 3);
    match s {
        State::Edit(a) => {
            let mut expect = vec![vec![false; 3]; 4];
            expect[3][1] = true;
            assert_eq!(a, expect);
        }
        _ => panic!("expected the editing mode"),
    }
}

#[test]
fn right_click_toggles_upper_pixel_and_back() {
    let mut b = Board::new(3, 3);
    let scratch = dead_grid(3, 4);
    let e = Event::Mouse { button: Button::Right, col: 0, row: 0 };
    let (s, _) = step(State::Edit(scratch), &mut b, e, 3, 3);
    let a = match s {
        State::Edit(a) => a,
        _ => panic!("expected the editing mode"),
    };
    let mut expect = vec![vec![false; 3]; 4];
    expect[0][0] = true;
    assert_eq!(a, expect);
    // a second toggle at the same spot flips it back
    let e = Event::Mouse { button: Button::Right, col: 0, row: 0 };
    let (s, _) = step(State::Edit(a), &mut b, e, 3, 3);
    match s {
        State::Edit(a) => assert_eq!(a, vec![vec![false; 3]; 4]),
        _ => panic!("expected the editing mode"),
    }
}

#[test]
fn out_of_range_clicks_are_ignored() {
    let mut b = Board::new(3, 3);
    // column beyond the scratch width, row in range
    let e = Event::Mouse { button: Button::Left, col: 9, row: 0 };
    let (s, _) = step(State::Edit(dead_grid(3, 4)), &mut b, e, 3, 3);
    match s {
        State::Edit(a) => assert_eq!(a, vec![vec![false; 3]; 4]),
        _ => panic!("expected the editing mode"),
    }
    // row beyond the scratch height, column in range
    let e = Event::Mouse { button: Button::Right, col: 0, row: 7 };
    let (s, _) = step(State::Edit(dead_grid(3, 4)), &mut b, e, 3, 3);
    match s {
        State::Edit(a) => assert_eq!(a, vec![vec![false; 3]; 4]),
        _ => panic!("expected the editing mode"),
    }
}

#[test]
fn middle_click_is_ignored() {
    let mut b = Board::new(3, 3);
    let e = Event::Mouse { button: Button::Middle, col: 0, row: 0 };
    let (s, _) = step(State::Edit(dead_grid(3, 4)), &mut b, e, 3, 3);
    match s {
        State::Edit(a) => assert_eq!(a, vec![vec![false; 3]; 4]),
        _ => panic!("expected the editing mode"),
    }
}

#[test]
fn clicks_outside_editing_mode_do_nothing() {
    let mut b = board_from(block_6x6());
    let before = cells_of(&b);
    let e = Event::Mouse { button: Button::Left, col: 0, row: 0 };
    let (s, eff) = step(State::Board, &mut b, e, 6, 4);
    assert!(matches!(s, State::Board));
    assert_eq!(eff, Effect::Proceed);
    assert_eq!(cells_of(&b), before);
}

#[test]
fn tick_advances_only_while_running() {
    let mut b = board_from(block_6x6());
    let frame = tick(&State::Board, &mut b);
    assert_eq!(b.renders(), 1);
    assert_eq!(frame.unwrap(), display_alive(&block_6x6()));
    let frame = tick(&State::Help, &mut b);
    assert_eq!(b.renders(), 1);
    assert!(frame.is_none());
}

#[test]
fn tick_in_editing_mode_renders_scratch() {
    let mut b = board_from(block_6x6());
    let mut scratch = dead_grid(2, 2);
    scratch[0][0] = true;
    let frame = tick(&State::Edit(scratch.clone()), &mut b);
    assert_eq!(b.renders(), 0);
    assert_eq!(frame.unwrap(), display_alive(&scratch));
}

#[test]
fn status_hints_per_mode() {
    assert_eq!(status_hint(&State::Board), "type h for help");
    assert_eq!(status_hint(&State::Help), "type b to go back");
    assert_eq!(status_hint(&State::Edit(dead_grid(1, 1))), "type b to cancel, s to use save");
}

#[test]
fn help_panel_lines() {
    let lines = show();
    assert_eq!(
        lines,
        vec![
            "HELP MENU",
            "----------------------",
            "h to show this menu",
            "esc/q to quit",
            "r to reset",
            "e to edit board",
            "",
            "Editing",
            "------------",
            "A single character represents 2 blocks, so:",
            "Right click to place upper block",
            "Left click to place lower block",
        ]
    );
}

#[test]
fn centred_column() {
    assert_eq!(center_col(80, 10), 35);
    assert_eq!(center_col(5, 5), 0);
    assert_eq!(center_col(22, 9), 6);
}

#[test]
fn startup_sizing() {
    assert_eq!(startup_dims(80, 24), (80, 46));
    assert_eq!(startup_dims(1, 2), (1, 2));
}

#[test]
fn new_grid_shape_and_baseline() {
    let mut b = Board::new(7, 5);
    assert_eq!(b.width(), 7);
    assert_eq!(b.height(), 5);
    assert_eq!(b.renders(), 0);
    // straight after construction the live cells are the baseline
    let at_birth = cells_of(&b);
    b.reset();
    assert_eq!(cells_of(&b), at_birth);
}

#[test]
fn lone_cell_on_unit_torus_dies() {
    let mut b = board_from(vec![vec![true]]);
    b.next();
    assert_eq!(cells_of(&b), vec![vec![false]]);
}
