//! What the player's controls ask for in one frame, and whether the step the
//! player is about to take is allowed: a step lands only on a corridor cell,
//! and it ends the level when it reaches the goal tile `'g'` once the goal is
//! unlocked.

use vstd::prelude::*;
use crate::maze::{Maze, tile, open_cell};

verus! {

/// The state of the controls in one frame.
#[derive(Clone, Copy, Debug)]
pub struct Controls {
    pub key_left: bool,
    pub key_a: bool,
    pub key_right: bool,
    pub key_d: bool,
    pub key_up: bool,
    pub key_w: bool,
    pub key_down: bool,
    pub key_s: bool,
    pub mouse_left: bool,
    pub mouse_right: bool,
}

/// One step of the player's movement speed along its facing, forward or back.
#[derive(Clone, Copy, PartialEq, Eq, Structural, Debug)]
pub enum Stride {
    Forward,
    Backward,
}

/// What the controls ask for: turning left and right by one rotation step
/// (left first), and the strides to add to the position, in the order in
/// which they are added.
pub struct Intent {
    pub turn_left: bool,
    pub turn_right: bool,
    pub strides: Vec<Stride>,
}

/// `s` as a one-element sequence when `on` holds, else the empty sequence.
pub open spec fn stride_if(on: bool, s: Stride) -> Seq<Stride> {
    if on { seq![s] } else { seq![] }
}

/// The strides asked for: forward by the up arrow or W, back by the down
/// arrow or S, forward by the left mouse button, back by the right one.
pub open spec fn strides_of(c: Controls) -> Seq<Stride> {
    stride_if(c.key_up || c.key_w, Stride::Forward) + stride_if(c.key_down || c.key_s, Stride::Backward)
        + stride_if(c.mouse_left, Stride::Forward) + stride_if(c.mouse_right, Stride::Backward)
}

/// 1 when `b` holds, else 0.
pub open spec fn one_if(b: bool) -> int {
    if b { 1 } else { 0 }
}

/// The strides of a frame, position by position: a forward stride first when
/// the up arrow or W is held, then a backward one when the down arrow or S is
/// held, then a forward one for the left mouse button and a backward one for
/// the right mouse button; nothing else.
pub proof fn lemma_strides_law(c: Controls)
    ensures
        ({
            let s = strides_of(c);
            let kf = c.key_up || c.key_w;
            let kb = c.key_down || c.key_s;
            &&& s.len() == one_if(kf) + one_if(kb) + one_if(c.mouse_left) + one_if(c.mouse_right)
            &&& kf ==> s[0] == Stride::Forward
            &&& kb ==> s[one_if(kf)] == Stride::Backward
            &&& c.mouse_left ==> s[one_if(kf) + one_if(kb)] == Stride::Forward
            &&& c.mouse_right ==> s[one_if(kf) + one_if(kb) + one_if(c.mouse_left)] == Stride::Backward
            &&& (exists|i: int| 0 <= i < s.len() && s[i] == Stride::Backward) <==> (kb || c.mouse_right)
            &&& (exists|i: int| 0 <= i < s.len() && s[i] == Stride::Forward) <==> (kf || c.mouse_left)
        }),
{
    let s = strides_of(c);
    let kf = c.key_up || c.key_w;
    let kb = c.key_down || c.key_s;
    let a = stride_if(kf, Stride::Forward);
    let b = stride_if(kb, Stride::Backward);
    let m = stride_if(c.mouse_left, Stride::Forward);
    let r = stride_if(c.mouse_right, Stride::Backward);
    assert(s == a + b + m + r);
    if kb || c.mouse_right {
        let i = if kb { one_if(kf) } else { one_if(kf) + one_if(kb) + one_if(c.mouse_left) };
        assert(s[i] == Stride::Backward);
    }
    if kf || c.mouse_left {
        let i = if kf { 0 } else { one_if(kf) + one_if(kb) };
        assert(s[i] == Stride::Forward);
    }
}

/// Reads the controls of one frame.
pub fn read_controls(c: &Controls) -> (i: Intent)
    ensures
        i.turn_left == (c.key_left || c.key_a),
        i.turn_right == (c.key_right || c.key_d),
        i.strides@ == strides_of(*c),
        i.strides@.len() == one_if(c.key_up || c.key_w) + one_if(c.key_down || c.key_s) + one_if(
            c.mouse_left,
        ) + one_if(c.mouse_right),
        (c.key_up || c.key_w) ==> i.strides@[0] == Stride::Forward,
        (c.key_down || c.key_s) ==> i.strides@[one_if(c.key_up || c.key_w)] == Stride::Backward,
        c.mouse_left ==> i.strides@[one_if(c.key_up || c.key_w) + one_if(c.key_down || c.key_s)]
            == Stride::Forward,
        c.mouse_right ==> i.strides@[one_if(c.key_up || c.key_w) + one_if(c.key_down || c.key_s) + one_if(
            c.mouse_left,
        )] == Stride::Backward,
{
    proof {
        lemma_strides_law(*c);
    }
    let mut strides: Vec<Stride> = Vec::new();
    if c.key_up || c.key_w {
        strides.push(Stride::Forward);
    }
    if c.key_down || c.key_s {
        strides.push(Stride::Backward);
    }
    if c.mouse_left {
        strides.push(Stride::Forward);
    }
    if c.mouse_right {
        strides.push(Stride::Backward);
    }
    proof {
        assert(strides@ =~= strides_of(*c));
    }
    Intent { turn_left: c.key_left || c.key_a, turn_right: c.key_right || c.key_d, strides }
}

/// How a frame's movement ends.
#[derive(Clone, Copy, PartialEq, Eq, Structural, Debug)]
pub enum StepOutcome {
    /// The player stays where it is.
    Stay,
    /// The player moves to the new position.
    Advance,
    /// The player has reached the unlocked goal and won.
    GoalReached,
}

/// The outcome of a frame whose movement, if any, ends in cell `(x, y)`.
pub open spec fn step_outcome(maze: Seq<Vec<char>>, moved: bool, x: int, y: int, goal_unlocked: bool) -> StepOutcome {
    if !moved {
        StepOutcome::Stay
    } else if goal_unlocked && tile(maze, x, y) == Some('g') {
        StepOutcome::GoalReached
    } else if open_cell(maze, x, y) {
        StepOutcome::Advance
    } else {
        StepOutcome::Stay
    }
}

/// Decides a frame's movement. `intent` is what the controls asked for and
/// `(target_x, target_y)` the grid cell of the position the strides lead to.
/// Without strides nothing happens; outside the grid the player stays; on the
/// goal tile with the goal unlocked the level is won; on a corridor cell the
/// player moves; anywhere else it stays.
pub fn process_events(
    intent: &Intent,
    maze: &Maze,
    target_x: usize,
    target_y: usize,
    goal_unlocked: bool,
) -> (r: StepOutcome)
    ensures
        r == step_outcome(maze@, intent.strides@.len() > 0, target_x as int, target_y as int, goal_unlocked),
        ({
            let moved = intent.strides@.len() > 0;
            let (x, y) = (target_x as int, target_y as int);
            let inside = y < maze@.len() && x < maze@[y]@.len();
            &&& !moved ==> r == StepOutcome::Stay
            &&& moved && inside && maze@[y]@[x] == ' ' ==> r == StepOutcome::Advance
            &&& moved && inside && maze@[y]@[x] == 'g' ==> r == (if goal_unlocked {
                StepOutcome::GoalReached
            } else {
                StepOutcome::Stay
            })
            &&& moved && inside && maze@[y]@[x] != ' ' && maze@[y]@[x] != 'g' ==> r == StepOutcome::Stay
            &&& moved && !inside ==> r == StepOutcome::Stay
        }),
{
    proof {
        lemma_step_law(maze@, intent.strides@.len() > 0, target_x as int, target_y as int, goal_unlocked);
    }
    if intent.strides.len() > 0 {
        if target_y < maze.len() && target_x < maze[target_y].len() {
            if goal_unlocked && maze[target_y][target_x] == 'g' {
                return StepOutcome::GoalReached;
            }
            if maze[target_y][target_x] == ' ' {
                return StepOutcome::Advance;
            }
        }
    }
    StepOutcome::Stay
}

/// What a frame's movement gives, case by case: without strides the player
/// stays; with strides it wins on the goal tile once the goal is unlocked,
/// steps onto a space tile whether or not the goal is unlocked, and stays on
/// any other tile or outside the grid.
pub proof fn lemma_step_law(maze: Seq<Vec<char>>, moved: bool, x: int, y: int, goal_unlocked: bool)
    ensures
        ({
            let r = step_outcome(maze, moved, x, y, goal_unlocked);
            let inside = 0 <= y < maze.len() && 0 <= x < maze[y]@.len();
            &&& !moved ==> r == StepOutcome::Stay
            &&& moved && inside && maze[y]@[x] == ' ' ==> r == StepOutcome::Advance
            &&& moved && inside && maze[y]@[x] == 'g' && goal_unlocked ==> r == StepOutcome::GoalReached
            &&& moved && inside && maze[y]@[x] == 'g' && !goal_unlocked ==> r == StepOutcome::Stay
            &&& moved && inside && maze[y]@[x] != ' ' && maze[y]@[x] != 'g' ==> r == StepOutcome::Stay
            &&& moved && !inside ==> r == StepOutcome::Stay
        }),
{
}

/// The player only ever moves onto a corridor cell, and only wins on the goal
/// tile after the goal has been unlocked.
pub proof fn lemma_steps_stay_in_corridors(maze: Seq<Vec<char>>, moved: bool, x: int, y: int, goal_unlocked: bool)
    ensures
        step_outcome(maze, moved, x, y, goal_unlocked) == StepOutcome::Advance ==> moved && open_cell(maze, x, y),
        step_outcome(maze, moved, x, y, goal_unlocked) == StepOutcome::GoalReached ==> moved && goal_unlocked
            && tile(maze, x, y) == Some('g'),
        !goal_unlocked ==> step_outcome(maze, moved, x, y, goal_unlocked) != StepOutcome::GoalReached,
{
}

} // verus!
