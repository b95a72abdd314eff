//! The parts of drawing that are decided on whole numbers: which tiles of the
//! maze are drawn as walls on the map, and which texel of a 128-texel-wide
//! texture a pixel of a sprite shows.

use vstd::prelude::*;
use crate::maze::Maze;

verus! {

/// The width and height of a texture, in texels.
pub const TEXTURE_SIZE: usize = 128;

/// The wall tiles of one row, as `(x, y)` with `y` the given row, left to right.
pub open spec fn row_walls(row: Seq<char>, y: int) -> Seq<(usize, usize)>
    decreases row.len(),
{
    if row.len() == 0 {
        seq![]
    } else {
        let r = row_walls(row.drop_last(), y);
        if row.last() != ' ' {
            r.push(((row.len() - 1) as usize, y as usize))
        } else {
            r
        }
    }
}

/// The wall tiles of a maze (every tile but a space), row by row from the top,
/// each row from left to right.
pub open spec fn grid_walls(maze: Seq<Vec<char>>) -> Seq<(usize, usize)>
    decreases maze.len(),
{
    if maze.len() == 0 {
        seq![]
    } else {
        grid_walls(maze.drop_last()) + row_walls(maze.last()@, maze.len() - 1)
    }
}

proof fn lemma_push_contains(s: Seq<(usize, usize)>, a: (usize, usize), p: (usize, usize))
    ensures
        s.push(a).contains(p) <==> (s.contains(p) || p == a),
{
    let t = s.push(a);
    if t.contains(p) {
        let i = choose|i: int| 0 <= i < t.len() && t[i] == p;
        if i < s.len() {
            assert(s[i] == p);
        }
    }
    if s.contains(p) {
        let i = choose|i: int| 0 <= i < s.len() && s[i] == p;
        assert(t[i] == p);
    }
    if p == a {
        assert(t[s.len() as int] == p);
    }
}

proof fn lemma_concat_contains(s: Seq<(usize, usize)>, t: Seq<(usize, usize)>, p: (usize, usize))
    ensures
        (s + t).contains(p) <==> (s.contains(p) || t.contains(p)),
{
    let u = s + t;
    if u.contains(p) {
        let i = choose|i: int| 0 <= i < u.len() && u[i] == p;
        if i < s.len() {
            assert(s[i] == p);
        } else {
            assert(t[i - s.len()] == p);
        }
    }
    if s.contains(p) {
        let i = choose|i: int| 0 <= i < s.len() && s[i] == p;
        assert(u[i] == p);
    }
    if t.contains(p) {
        let i = choose|i: int| 0 <= i < t.len() && t[i] == p;
        assert(u[i + s.len()] == p);
    }
}

/// The wall tiles of one row are exactly its non-space tiles, each tagged
/// with the row, listed from left to right.
pub proof fn lemma_row_walls(row: Seq<char>, y: int)
    requires
        0 <= y <= usize::MAX,
        row.len() <= usize::MAX + 1,
    ensures
        forall|p: (usize, usize)|
            #[trigger] row_walls(row, y).contains(p) <==> (p.1 as int == y && (p.0 as int) < row.len()
                && row[p.0 as int] != ' '),
        forall|i: int|
            0 <= i < row_walls(row, y).len() ==> #[trigger] row_walls(row, y)[i].1 as int == y
                && (row_walls(row, y)[i].0 as int) < row.len(),
        forall|i: int, j: int|
            0 <= i < j < row_walls(row, y).len() ==> row_walls(row, y)[i].0 < row_walls(row, y)[j].0,
    decreases row.len(),
{
    if row.len() > 0 {
        let rest = row.drop_last();
        lemma_row_walls(rest, y);
        let r = row_walls(rest, y);
        let a = ((row.len() - 1) as usize, y as usize);
        assert forall|p: (usize, usize)|
            #[trigger] row_walls(row, y).contains(p) <==> (p.1 as int == y && (p.0 as int) < row.len()
                && row[p.0 as int] != ' ') by {
            assert(r.contains(p) <==> (p.1 as int == y && (p.0 as int) < rest.len() && rest[p.0 as int]
                != ' '));
            if row.last() != ' ' {
                lemma_push_contains(r, a, p);
            }
        }
        let all = row_walls(row, y);
        assert forall|i: int, j: int| 0 <= i < j < all.len() implies #[trigger] all[i].0 < #[trigger] all[j].0 by {
            if row.last() != ' ' {
                assert(all == r.push(a));
                if j == r.len() {
                    assert(all[i] == r[i]);
                    assert(r[i].1 as int == y);
                    assert((r[i].0 as int) < rest.len());
                } else {
                    assert(all[i] == r[i] && all[j] == r[j]);
                }
            }
        }
    }
}

/// The wall tiles of a maze are exactly its non-space tiles, listed row by
/// row from the top and, within a row, from left to right.
pub proof fn lemma_wall_cells_law(maze: Seq<Vec<char>>)
    requires
        maze.len() <= usize::MAX,
        forall|y: int| 0 <= y < maze.len() ==> #[trigger] maze[y]@.len() <= usize::MAX,
    ensures
        forall|x: usize, y: usize|
            #[trigger] grid_walls(maze).contains((x, y)) <==> ((y as int) < maze.len() && (x as int)
                < maze[y as int]@.len() && maze[y as int]@[x as int] != ' '),
        forall|i: int, j: int|
            0 <= i < j < grid_walls(maze).len() ==> #[trigger] grid_walls(maze)[i].1 < #[trigger] grid_walls(maze)[j].1
                || (grid_walls(maze)[i].1 == grid_walls(maze)[j].1 && grid_walls(maze)[i].0 < grid_walls(maze)[j].0),
        forall|i: int|
            0 <= i < grid_walls(maze).len() ==> (#[trigger] grid_walls(maze)[i].1 as int) < maze.len(),
    decreases maze.len(),
{
    if maze.len() > 0 {
        let rest = maze.drop_last();
        let y = maze.len() - 1;
        let row = maze.last()@;
        assert(maze[y]@.len() <= usize::MAX);
        lemma_wall_cells_law(rest);
        lemma_row_walls(row, y);
        let g = grid_walls(rest);
        let r = row_walls(row, y);
        assert forall|x: usize, yy: usize|
            #[trigger] grid_walls(maze).contains((x, yy)) <==> ((yy as int) < maze.len() && (x as int)
                < maze[yy as int]@.len() && maze[yy as int]@[x as int] != ' ') by {
            lemma_concat_contains(g, r, (x, yy));
            assert(g.contains((x, yy)) <==> ((yy as int) < rest.len() && (x as int)
                < rest[yy as int]@.len() && rest[yy as int]@[x as int] != ' '));
            assert(r.contains((x, yy)) <==> (yy as int == y && (x as int) < row.len() && row[x as int]
                != ' '));
        }
        let all = grid_walls(maze);
        assert(all == g + r);
        assert forall|i: int, j: int| 0 <= i < j < all.len() implies #[trigger] all[i].1 < #[trigger] all[j].1
            || (all[i].1 == all[j].1 && all[i].0 < all[j].0) by {
            if j < g.len() {
                assert(all[i] == g[i] && all[j] == g[j]);
            } else if i < g.len() {
                assert(all[i] == g[i]);
                assert(all[j] == r[j - g.len()]);
                assert(r[j - g.len()].1 as int == y);
                assert((g[i].1 as int) < rest.len());
            } else {
                assert(all[i] == r[i - g.len()] && all[j] == r[j - g.len()]);
                assert(r[i - g.len()].1 as int == y);
                assert(r[j - g.len()].1 as int == y);
            }
        }
        assert forall|i: int| 0 <= i < all.len() implies (#[trigger] all[i].1 as int) < maze.len() by {
            if i < g.len() {
                assert(all[i] == g[i]);
            } else {
                assert(all[i] == r[i - g.len()]);
                assert(r[i - g.len()].1 as int == y);
            }
        }
    }
}

/// The tiles that the map view and the minimap draw as walls, as `(x, y)`.
pub fn wall_cells(maze: &Maze) -> (cells: Vec<(usize, usize)>)
    ensures
        cells@ == grid_walls(maze@),
        forall|x: usize, y: usize|
            #[trigger] cells@.contains((x, y)) <==> ((y as int) < maze@.len() && (x as int)
                < maze@[y as int]@.len() && maze@[y as int]@[x as int] != ' '),
        forall|i: int, j: int|
            0 <= i < j < cells@.len() ==> #[trigger] cells@[i].1 < #[trigger] cells@[j].1 || (cells@[i].1
                == cells@[j].1 && cells@[i].0 < cells@[j].0),
{
    proof {
        assert(maze@.len() == maze.len());
        assert forall|y: int| 0 <= y < maze@.len() implies #[trigger] maze@[y]@.len() <= usize::MAX by {
            assert(maze@[y]@.len() == maze@[y].len());
        }
        lemma_wall_cells_law(maze@);
    }
    let mut cells: Vec<(usize, usize)> = Vec::new();
    let rows = maze.len();
    for y in 0..rows
        invariant
            rows == maze.len(),
            cells@ == grid_walls(maze@.take(y as int)),
    {
        let row = &maze[y];
        let cols = row.len();
        let ghost before = cells@;
        for x in 0..cols
            invariant
                cols == row@.len(),
                row == &maze@[y as int],
                0 <= y < rows,
                rows == maze.len(),
                cells@ == before + row_walls(row@.take(x as int), y as int),
        {
            proof {
                assert(row@.take(x + 1).drop_last() =~= row@.take(x as int));
            }
            if row[x] != ' ' {
                cells.push((x, y));
                proof {
                    assert(cells@ =~= before + row_walls(row@.take(x + 1), y as int));
                }
            }
        }
        proof {
            assert(row@.take(cols as int) =~= row@);
            assert(maze@.take(y + 1).drop_last() =~= maze@.take(y as int));
        }
    }
    proof {
        assert(maze@.take(rows as int) =~= maze@);
    }
    cells
}

/// The texel column (or row) shown `offset` pixels into a sprite drawn
/// `span` pixels wide: the texture is stretched over the span.
pub fn sprite_texel(offset: usize, span: usize) -> (t: u32)
    requires
        offset < span,
        offset * TEXTURE_SIZE <= usize::MAX,
    ensures
        t == (offset * TEXTURE_SIZE) as int / (span as int),
        t < TEXTURE_SIZE,
{
    let scaled = offset * TEXTURE_SIZE;
    let t = scaled / span;
    proof {
        assert((offset * 128) as int / (span as int) < 128) by (nonlinear_arith)
            requires
                offset < span,
                0 <= offset,
        ;
    }
    t as u32
}

} // verus!
