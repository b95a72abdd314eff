//! Enemies walk along the corridors of the maze. Their velocity is always one
//! of the four axis directions: it starts along +x and only ever turns by a
//! quarter or reverses. When the cell ahead is blocked an enemy turns toward
//! its preferred side if that side is open, else toward the other side, else
//! back the way it came. Police officers flip between two sprites while they
//! walk; debt collectors keep one.

use vstd::prelude::*;
use crate::maze::{Maze, is_open, open_cell};

verus! {

/// The side an enemy tries first when the way ahead is blocked.
#[derive(Clone, Copy, PartialEq, Eq, Structural, Debug)]
pub enum TurnPreference {
    Left,
    Right,
}

/// What kind of enemy it is; only police officers are animated.
#[derive(Clone, Copy, PartialEq, Eq, Structural, Debug)]
pub enum EnemyType {
    Police,
    Debt,
}

/// One of the four unit vectors along the axes of the grid.
#[derive(Clone, Copy, PartialEq, Eq, Structural, Debug)]
pub enum Heading {
    PlusX,
    PlusY,
    MinusX,
    MinusY,
}

/// The unit vector `(dx, dy)` of a heading.
pub open spec fn vector(h: Heading) -> (int, int) {
    match h {
        Heading::PlusX => (1, 0),
        Heading::PlusY => (0, 1),
        Heading::MinusX => (-1, 0),
        Heading::MinusY => (0, -1),
    }
}

/// The heading whose vector is `(vy, -vx)` for the vector `(vx, vy)` of `h`.
pub open spec fn right_of(h: Heading) -> Heading {
    match h {
        Heading::PlusX => Heading::MinusY,
        Heading::PlusY => Heading::PlusX,
        Heading::MinusX => Heading::PlusY,
        Heading::MinusY => Heading::MinusX,
    }
}

/// The heading whose vector is `(-vy, vx)` for the vector `(vx, vy)` of `h`.
pub open spec fn left_of(h: Heading) -> Heading {
    match h {
        Heading::PlusX => Heading::PlusY,
        Heading::PlusY => Heading::MinusX,
        Heading::MinusX => Heading::MinusY,
        Heading::MinusY => Heading::PlusX,
    }
}

/// The heading whose vector is the negation of that of `h`.
pub open spec fn back_of(h: Heading) -> Heading {
    match h {
        Heading::PlusX => Heading::MinusX,
        Heading::PlusY => Heading::MinusY,
        Heading::MinusX => Heading::PlusX,
        Heading::MinusY => Heading::PlusY,
    }
}

impl Heading {
    /// The x component of the unit vector.
    pub fn dx(self) -> (r: i32)
        ensures
            r == vector(self).0,
    {
        match self {
            Heading::PlusX => 1,
            Heading::MinusX => -1,
            _ => 0,
        }
    }

    /// The y component of the unit vector.
    pub fn dy(self) -> (r: i32)
        ensures
            r == vector(self).1,
    {
        match self {
            Heading::PlusY => 1,
            Heading::MinusY => -1,
            _ => 0,
        }
    }

    /// The heading with vector `(vy, -vx)`.
    pub fn right(self) -> (r: Heading)
        ensures
            r == right_of(self),
            vector(r) == (vector(self).1, -vector(self).0),
    {
        match self {
            Heading::PlusX => Heading::MinusY,
            Heading::PlusY => Heading::PlusX,
            Heading::MinusX => Heading::PlusY,
            Heading::MinusY => Heading::MinusX,
        }
    }

    /// The heading with vector `(-vy, vx)`.
    pub fn left(self) -> (r: Heading)
        ensures
            r == left_of(self),
            vector(r) == (-vector(self).1, vector(self).0),
    {
        match self {
            Heading::PlusX => Heading::PlusY,
            Heading::PlusY => Heading::MinusX,
            Heading::MinusX => Heading::MinusY,
            Heading::MinusY => Heading::PlusX,
        }
    }

    /// The heading with vector `(-vx, -vy)`.
    pub fn back(self) -> (r: Heading)
        ensures
            r == back_of(self),
            vector(r) == (-vector(self).0, -vector(self).1),
    {
        match self {
            Heading::PlusX => Heading::MinusX,
            Heading::PlusY => Heading::MinusY,
            Heading::MinusX => Heading::PlusX,
            Heading::MinusY => Heading::PlusY,
        }
    }
}

/// Turning right undoes turning left and the other way round, reversing twice
/// changes nothing, two right turns reverse, and four right turns change nothing.
pub proof fn lemma_turns(h: Heading)
    ensures
        right_of(left_of(h)) == h,
        left_of(right_of(h)) == h,
        back_of(back_of(h)) == h,
        right_of(right_of(h)) == back_of(h),
        left_of(left_of(h)) == back_of(h),
        right_of(right_of(right_of(right_of(h)))) == h,
        vector(h).0 * vector(h).0 + vector(h).1 * vector(h).1 == 1,
        vector(right_of(h)) == (vector(h).1, -vector(h).0),
        vector(left_of(h)) == (-vector(h).1, vector(h).0),
        vector(back_of(h)) == (-vector(h).0, -vector(h).1),
        h == Heading::PlusX <==> vector(h) == (1int, 0int),
        h == Heading::PlusY <==> vector(h) == (0int, 1int),
        h == Heading::MinusX <==> vector(h) == (-1int, 0int),
        h == Heading::MinusY <==> vector(h) == (0int, -1int),
{
}

/// Headings with the same vector are the same heading.
pub proof fn lemma_vector_injective(h: Heading, g: Heading)
    ensures
        vector(h) == vector(g) <==> h == g,
{
}

/// Whether the cell `c = (x, y)` lies in the maze and holds a space.
pub open spec fn clear(maze: Seq<Vec<char>>, c: (usize, usize)) -> bool {
    open_cell(maze, c.0 as int, c.1 as int)
}

/// The grid cells that an enemy's sight lines hit, as `(x, y)`: ahead along
/// its velocity, and to the two sides it may turn to.
#[derive(Clone, Copy, Debug)]
pub struct Probes {
    pub ahead: (usize, usize),
    pub right: (usize, usize),
    pub left: (usize, usize),
}

/// The heading an enemy takes after looking ahead and, if blocked, to its sides.
pub open spec fn steer(maze: Seq<Vec<char>>, h: Heading, turn: TurnPreference, probes: Probes) -> Heading {
    let open = |c: (usize, usize)| open_cell(maze, c.0 as int, c.1 as int);
    if open(probes.ahead) {
        h
    } else {
        let (first, first_cell, second, second_cell) = match turn {
            TurnPreference::Right => (right_of(h), probes.right, left_of(h), probes.left),
            TurnPreference::Left => (left_of(h), probes.left, right_of(h), probes.right),
        };
        if open(first_cell) {
            first
        } else if open(second_cell) {
            second
        } else {
            back_of(h)
        }
    }
}

/// The sprite after `frame` in the two-frame police walk cycle.
pub open spec fn next_frame(frame: char) -> char {
    if frame == 'e' { 'f' } else { 'e' }
}

/// What the library knows of an enemy.
pub struct EnemyView {
    pub texture_key: char,
    pub animation_frame: char,
    pub heading: Heading,
    pub turn_preference: TurnPreference,
    pub enemy_type: EnemyType,
}

/// An enemy's sprite state: a police officer shows its current walk frame,
/// `'e'` or `'f'`; a debt collector always shows `'d'`.
pub open spec fn enemy_wf(v: EnemyView) -> bool {
    match v.enemy_type {
        EnemyType::Police => v.texture_key == v.animation_frame && (v.animation_frame == 'e'
            || v.animation_frame == 'f'),
        EnemyType::Debt => v.texture_key == 'd' && v.animation_frame == 'e',
    }
}

/// The state of an enemy that its behaviour depends on; where it stands and
/// how fast it walks are kept by the caller.
pub struct Enemy {
    texture_key: char,
    animation_frame: char,
    heading: Heading,
    turn_preference: TurnPreference,
    enemy_type: EnemyType,
}

impl View for Enemy {
    type V = EnemyView;

    closed spec fn view(&self) -> EnemyView {
        EnemyView {
            texture_key: self.texture_key,
            animation_frame: self.animation_frame,
            heading: self.heading,
            turn_preference: self.turn_preference,
            enemy_type: self.enemy_type,
        }
    }
}

impl Enemy {
    /// A new enemy heading along +x: police start on frame `'e'`, debt
    /// collectors show `'d'`.
    pub fn new(turn_preference: TurnPreference, enemy_type: EnemyType) -> (e: Enemy)
        ensures
            e@.heading == Heading::PlusX,
            e@.turn_preference == turn_preference,
            e@.enemy_type == enemy_type,
            e@.animation_frame == 'e',
            e@.texture_key == (match enemy_type {
                EnemyType::Police => 'e',
                EnemyType::Debt => 'd',
            }),
            enemy_wf(e@),
    {
        let texture_key = match enemy_type {
            EnemyType::Police => 'e',
            EnemyType::Debt => 'd',
        };
        Enemy {
            texture_key,
            animation_frame: 'e',
            heading: Heading::PlusX,
            turn_preference,
            enemy_type,
        }
    }

    /// The sprite to draw.
    pub fn texture_key(&self) -> (r: char)
        ensures
            r == self@.texture_key,
    {
        self.texture_key
    }

    /// The direction of the velocity.
    pub fn heading(&self) -> (r: Heading)
        ensures
            r == self@.heading,
    {
        self.heading
    }

    /// The side tried first at a wall.
    pub fn turn_preference(&self) -> (r: TurnPreference)
        ensures
            r == self@.turn_preference,
    {
        self.turn_preference
    }

    /// The kind of enemy.
    pub fn enemy_type(&self) -> (r: EnemyType)
        ensures
            r == self@.enemy_type,
    {
        self.enemy_type
    }

    /// Whether the enemy runs a walk animation (police officers do).
    pub fn is_animated(&self) -> (r: bool)
        ensures
            r == (self@.enemy_type == EnemyType::Police),
    {
        match self.enemy_type {
            EnemyType::Police => true,
            EnemyType::Debt => false,
        }
    }

    /// One step of an enemy. `frame_due` says that the animation timer has run
    /// out; a police officer then shows its next walk frame. `probes` are the
    /// cells ahead of the enemy and to its sides; if the cell ahead is not an
    /// open corridor the enemy turns as `steer` says.
    pub fn update(&mut self, frame_due: bool, maze: &Maze, probes: Probes)
        requires
            enemy_wf(old(self)@),
        ensures
            enemy_wf(final(self)@),
            final(self)@.enemy_type == old(self)@.enemy_type,
            final(self)@.turn_preference == old(self)@.turn_preference,
            final(self)@.heading == steer(maze@, old(self)@.heading, old(self)@.turn_preference, probes),
            ({
                let (vx, vy) = vector(old(self)@.heading);
                let n = vector(final(self)@.heading);
                let turn = old(self)@.turn_preference;
                let ahead = clear(maze@, probes.ahead);
                let right = clear(maze@, probes.right);
                let left = clear(maze@, probes.left);
                &&& ahead ==> final(self)@.heading == old(self)@.heading
                &&& !ahead && turn == TurnPreference::Right && right ==> n == (vy, -vx)
                &&& !ahead && turn == TurnPreference::Right && !right && left ==> n == (-vy, vx)
                &&& !ahead && turn == TurnPreference::Left && left ==> n == (-vy, vx)
                &&& !ahead && turn == TurnPreference::Left && !left && right ==> n == (vy, -vx)
                &&& !ahead && !right && !left ==> n == (-vx, -vy)
            }),
            final(self)@.animation_frame == (if frame_due && old(self)@.enemy_type == EnemyType::Police {
                next_frame(old(self)@.animation_frame)
            } else {
                old(self)@.animation_frame
            }),
            final(self)@.texture_key == (if frame_due && old(self)@.enemy_type == EnemyType::Police {
                next_frame(old(self)@.animation_frame)
            } else {
                old(self)@.texture_key
            }),
    {
        if frame_due && self.is_animated() {
            let frame = if self.animation_frame == 'e' { 'f' } else { 'e' };
            self.animation_frame = frame;
            self.texture_key = frame;
        }
        let h = self.heading;
        proof {
            lemma_steer_law(maze@, h, self.turn_preference, probes);
        }
        if !is_open(maze, probes.ahead.0, probes.ahead.1) {
            let (first, first_cell, second, second_cell) = match self.turn_preference {
                TurnPreference::Right => (h.right(), probes.right, h.left(), probes.left),
                TurnPreference::Left => (h.left(), probes.left, h.right(), probes.right),
            };
            if is_open(maze, first_cell.0, first_cell.1) {
                self.heading = first;
            } else if is_open(maze, second_cell.0, second_cell.1) {
                self.heading = second;
            } else {
                self.heading = h.back();
            }
        }
    }
}

/// An enemy keeps going while the way ahead is open; at a wall it turns to a
/// side whose cell is open whenever one is, and it only turns back when the
/// way ahead and both sides are blocked.
pub proof fn lemma_steer_prefers_open(maze: Seq<Vec<char>>, h: Heading, turn: TurnPreference, probes: Probes)
    ensures
        open_cell(maze, probes.ahead.0 as int, probes.ahead.1 as int) ==> steer(maze, h, turn, probes) == h,
        !open_cell(maze, probes.ahead.0 as int, probes.ahead.1 as int) && (open_cell(
            maze,
            probes.right.0 as int,
            probes.right.1 as int,
        ) || open_cell(maze, probes.left.0 as int, probes.left.1 as int)) ==> {
            ||| steer(maze, h, turn, probes) == right_of(h) && open_cell(
                maze,
                probes.right.0 as int,
                probes.right.1 as int,
            )
            ||| steer(maze, h, turn, probes) == left_of(h) && open_cell(
                maze,
                probes.left.0 as int,
                probes.left.1 as int,
            )
        },
        steer(maze, h, turn, probes) == back_of(h) <==> !open_cell(
            maze,
            probes.ahead.0 as int,
            probes.ahead.1 as int,
        ) && !open_cell(maze, probes.right.0 as int, probes.right.1 as int) && !open_cell(
            maze,
            probes.left.0 as int,
            probes.left.1 as int,
        ),
{
}

/// How an enemy with velocity `(vx, vy)` turns: it keeps its velocity while
/// the cell ahead is clear; at a wall it takes `(vy, -vx)` (its right) or
/// `(-vy, vx)` (its left), trying the preferred side first and the other side
/// second, each only if that side's cell is clear; with both sides blocked it
/// reverses to `(-vx, -vy)`.
pub proof fn lemma_steer_law(maze: Seq<Vec<char>>, h: Heading, turn: TurnPreference, probes: Probes)
    ensures
        ({
            let (vx, vy) = vector(h);
            let n = vector(steer(maze, h, turn, probes));
            let ahead = clear(maze, probes.ahead);
            let right = clear(maze, probes.right);
            let left = clear(maze, probes.left);
            &&& ahead ==> steer(maze, h, turn, probes) == h
            &&& !ahead && turn == TurnPreference::Right && right ==> n == (vy, -vx)
            &&& !ahead && turn == TurnPreference::Right && !right && left ==> n == (-vy, vx)
            &&& !ahead && turn == TurnPreference::Left && left ==> n == (-vy, vx)
            &&& !ahead && turn == TurnPreference::Left && !left && right ==> n == (vy, -vx)
            &&& !ahead && !right && !left ==> n == (-vx, -vy)
        }),
{
    lemma_turns(h);
}

/// Two walk-frame steps bring a police sprite back to where it was.
pub proof fn lemma_frame_cycle(v: EnemyView)
    requires
        enemy_wf(v),
        v.enemy_type == EnemyType::Police,
    ensures
        next_frame(next_frame(v.animation_frame)) == v.animation_frame,
        next_frame(v.animation_frame) != v.animation_frame,
{
}

} // verus!
