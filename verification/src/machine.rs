//! The application state machine: running, help and editing modes, the
//! transitions that decoded input events cause, and what one tick renders.

use vstd::prelude::*;
use vstd::pervasive::VecAdditionalExecFns;
use crate::board::{
    advance_model, all_dead, buffer_wf, dead_grid, display_alive, edit_model, rendered,
    reset_model, Board, GridModel, MAX_DIM,
};

verus! {

broadcast use crate::views::lemma_row_deep_view, crate::views::lemma_grid_deep_view_len,
    crate::views::lemma_grid_deep_view_index;

/// Mouse button carried by a pointer event.
#[derive(Clone, Copy, Debug, PartialEq, Eq, Structural)]
pub enum Button {
    Left,
    Right,
    Middle,
}

/// A decoded input event: a character key (with its control-modifier flag),
/// the escape key, or a pointer press or drag at terminal coordinates.
pub enum Event {
    Key { ch: char, ctrl: bool },
    Escape,
    Mouse { button: Button, col: usize, row: usize },
}

/// Application mode; editing owns its scratch pixel buffer.
pub enum State {
    Board,
    Help,
    Edit(Vec<Vec<bool>>),
}

/// What the shell must do after a step.
#[derive(Clone, Copy, Debug, PartialEq, Eq, Structural)]
pub enum Effect {
    Proceed,
    Quit,
    ClearScreen,
}

/// A scratch buffer held by the editing mode is well formed.
pub open spec fn state_wf(s: State) -> bool {
    s matches State::Edit(a) ==> buffer_wf(a.deep_view())
}

/// Events that end the session: escape, 'q', or control-'c'.
pub open spec fn is_quit(e: Event) -> bool {
    ||| e is Escape
    ||| (e matches Event::Key { ch, ctrl } && (ch == 'q' || (ctrl && ch == 'c')))
}

pub open spec fn is_key(e: Event, c: char) -> bool {
    e matches Event::Key { ch, .. } && ch == c
}

/// The scratch buffer after a pointer toggle: the left button flips the lower
/// pixel of the touched character cell, the right button the upper one. The
/// toggle happens only when the target pixel itself is in range on both axes
/// (the disjunctive bounds test the interface historically allowed could
/// reach out of range on one axis while the other was in range).
pub open spec fn toggled(g: Seq<Seq<bool>>, button: Button, col: int, row: int) -> Seq<
    Seq<bool>,
> {
    let t = if button is Left {
        2 * row + 1
    } else {
        2 * row
    };
    if button is Middle {
        g
    } else if 0 <= t < g.len() && 0 <= col < g[t].len() {
        g.update(t, g[t].update(col, !g[t][col]))
    } else {
        g
    }
}

/// The transition table: how one event takes mode `s` and grid `b0` to mode
/// `s2`, grid `b2` and shell effect `eff`, on a terminal of `tw` columns and
/// `th` character rows.
pub open spec fn step_spec(
    s: State,
    b0: GridModel,
    e: Event,
    tw: int,
    th: int,
    s2: State,
    b2: GridModel,
    eff: Effect,
) -> bool {
    if is_quit(e) {
        &&& eff is Quit
        &&& s2 == s
        &&& b2 == b0
    } else if is_key(e, 'h') {
        &&& s2 is Help
        &&& eff is ClearScreen
        &&& b2 == b0
    } else if is_key(e, 's') {
        match s {
            State::Edit(a) => {
                &&& s2 is Board
                &&& b2 == edit_model(a.deep_view())
                &&& eff is Proceed
            },
            _ => {
                &&& s2 == s
                &&& b2 == b0
                &&& eff is Proceed
            },
        }
    } else if is_key(e, 'b') {
        &&& s2 is Board
        &&& b2 == b0
        &&& eff is Proceed
    } else if is_key(e, 'r') {
        &&& s2 == s
        &&& eff is Proceed
        &&& b2 == if s is Board {
            reset_model(b0)
        } else {
            b0
        }
    } else if is_key(e, 'e') {
        match s {
            State::Board => {
                &&& s2 matches State::Edit(a2)
                &&& a2.deep_view().len() == 2 * th - 2
                &&& (forall|i: int|
                    0 <= i < a2.deep_view().len() ==> (#[trigger] a2.deep_view()[i]).len() == tw)
                &&& all_dead(a2.deep_view())
                &&& b2 == b0
                &&& eff is Proceed
            },
            _ => {
                &&& s2 == s
                &&& b2 == b0
                &&& eff is Proceed
            },
        }
    } else {
        match e {
            Event::Mouse { button, col, row } => match s {
                State::Edit(a) => {
                    &&& s2 matches State::Edit(a2)
                    &&& a2.deep_view() == toggled(a.deep_view(), button, col as int, row as int)
                    &&& b2 == b0
                    &&& eff is Proceed
                },
                _ => {
                    &&& s2 == s
                    &&& b2 == b0
                    &&& eff is Proceed
                },
            },
            _ => {
                &&& s2 == s
                &&& b2 == b0
                &&& eff is Proceed
            },
        }
    }
}

/// Flips one cell of a scratch buffer.
fn toggle_at(a: &mut Vec<Vec<bool>>, t: usize, col: usize)
    requires
        t < old(a)@.len(),
        col < old(a)@[t as int]@.len(),
    ensures
        final(a).deep_view() == old(a).deep_view().update(
            t as int,
            old(a).deep_view()[t as int].update(
                col as int,
                !old(a).deep_view()[t as int][col as int],
            ),
        ),
{
    let mut row: Vec<bool> = Vec::new();
    a.set_and_swap(t, &mut row);
    let cur: bool = row[col];
    row.set(col, !cur);
    a.set_and_swap(t, &mut row);
    proof {
        assert(a.deep_view() =~= old(a).deep_view().update(
            t as int,
            old(a).deep_view()[t as int].update(
                col as int,
                !old(a).deep_view()[t as int][col as int],
            ),
        ));
    }
}

/// Dispatches one decoded event: may end the session, switch mode, reset the
/// grid, open an all-dead scratch buffer sized to the terminal, commit or
/// discard an edit, or toggle a scratch pixel.
pub fn step(state: State, board: &mut Board, event: Event, term_width: usize, term_height: usize) -> (r:
    (State, Effect))
    requires
        old(board).wf(),
        state_wf(state),
        1 <= term_width <= MAX_DIM,
        2 <= term_height,
        2 * term_height - 2 <= MAX_DIM,
    ensures
        step_spec(
            state,
            old(board)@,
            event,
            term_width as int,
            term_height as int,
            r.0,
            final(board)@,
            r.1,
        ),
        final(board).wf(),
        state_wf(r.0),
{
    match event {
        Event::Escape => (state, Effect::Quit),
        Event::Key { ch, ctrl } => {
            if ctrl && ch == 'c' {
                return (state, Effect::Quit);
            }
            if ch == 'q' {
                return (state, Effect::Quit);
            }
            if ch == 'h' {
                return (State::Help, Effect::ClearScreen);
            }
            if ch == 's' {
                match state {
                    State::Edit(a) => {
                        board.edit(a);
                        return (State::Board, Effect::Proceed);
                    },
                    s => {
                        return (s, Effect::Proceed);
                    },
                }
            }
            if ch == 'b' {
                return (State::Board, Effect::Proceed);
            }
            if ch == 'r' {
                match &state {
                    State::Board => {
                        board.reset();
                    },
                    _ => {},
                }
                return (state, Effect::Proceed);
            }
            if ch == 'e' {
                match state {
                    State::Board => {
                        let scratch = dead_grid(term_width, 2 * term_height - 2);
                        return (State::Edit(scratch), Effect::Proceed);
                    },
                    s => {
                        return (s, Effect::Proceed);
                    },
                }
            }
            (state, Effect::Proceed)
        },
        Event::Mouse { button, col, row } => {
            match state {
                State::Edit(mut a) => {
                    // the target pixel must be in range on both axes; see
                    // `toggled`
                    if row <= MAX_DIM / 2 {
                        let t: usize = match button {
                            Button::Left => 2 * row + 1,
                            Button::Right => 2 * row,
                            Button::Middle => 0,
                        };
                        let middle: bool = match button {
                            Button::Middle => true,
                            _ => false,
                        };
                        let toggle: bool = !middle && t < a.len() && col < a[t].len();
                        if toggle {
                            toggle_at(&mut a, t, col);
                        }
                    }
                    proof {
                        assert(buffer_wf(a.deep_view()));
                    }
                    (State::Edit(a), Effect::Proceed)
                },
                s => (s, Effect::Proceed),
            }
        },
    }
}

/// One tick of the loop: in running mode the grid advances one generation and
/// its glyph rows are produced; in editing mode the scratch buffer's glyph
/// rows are produced; the help mode paints no pixel frame.
pub fn tick(state: &State, board: &mut Board) -> (r: Option<Vec<Vec<char>>>)
    requires
        old(board).wf(),
        old(board)@.renders < usize::MAX,
        state_wf(*state),
    ensures
        final(board).wf(),
        match *state {
            State::Board => {
                &&& final(board)@ == advance_model(old(board)@)
                &&& (r matches Some(f) && f.deep_view() == rendered(final(board)@.alive))
            },
            State::Help => final(board)@ == old(board)@ && r is None,
            State::Edit(a) => {
                &&& final(board)@ == old(board)@
                &&& (r matches Some(f) && f.deep_view() == rendered(a.deep_view()))
            },
        },
{
    match state {
        State::Board => {
            board.next();
            Some(board.display())
        },
        State::Help => None,
        State::Edit(a) => {
            proof {
                assert forall|i: int| 0 <= i < a@.len() implies (#[trigger] a@[i])@.len()
                    == a@[0]@.len() by {
                    assert(a.deep_view()[i].len() == a.deep_view()[0].len());
                }
            }
            Some(display_alive(a))
        },
    }
}

/// The status-line hint for each mode.
pub fn status_hint(state: &State) -> (r: &'static str)
    ensures
        r@ == match *state {
            State::Board => "type h for help"@,
            State::Help => "type b to go back"@,
            State::Edit(_) => "type b to cancel, s to use save"@,
        },
{
    match state {
        State::Board => "type h for help",
        State::Help => "type b to go back",
        State::Edit(_) => "type b to cancel, s to use save",
    }
}

/// Grid dimensions for a terminal of the given character size: full width,
/// and two pixel rows per character row less the status line's two.
pub fn startup_dims(term_width: usize, term_height: usize) -> (r: (usize, usize))
    requires
        1 <= term_width,
        2 <= term_height,
        2 * term_height - 2 <= MAX_DIM,
    ensures
        r.0 == term_width,
        r.1 == 2 * term_height - 2,
        1 <= r.1,
{
    (term_width, 2 * term_height - 2)
}

} // verus!
