//! The maze grid: one row of characters per line of the maze file.
//! A space is a walkable corridor; any other character is a wall or a
//! special tile (`'g'` is the goal).

use vstd::prelude::*;

verus! {

/// A maze is a list of rows; `maze[y][x]` is the tile at column `x`, row `y`.
pub type Maze = Vec<Vec<char>>;

/// The tile at column `x`, row `y`, or `None` outside the grid.
/// Rows may have different lengths.
pub open spec fn tile(maze: Seq<Vec<char>>, x: int, y: int) -> Option<char> {
    if 0 <= y < maze.len() && 0 <= x < maze[y].len() {
        Some(maze[y]@[x])
    } else {
        None
    }
}

/// A cell can be walked on exactly when it lies in the grid and holds a space.
pub open spec fn open_cell(maze: Seq<Vec<char>>, x: int, y: int) -> bool {
    tile(maze, x, y) == Some(' ')
}

/// A cell is open exactly when its row exists, the row reaches its column,
/// and the tile there is a space; any other tile, the goal included, is closed.
pub proof fn lemma_open_cell(maze: Seq<Vec<char>>, x: int, y: int)
    ensures
        open_cell(maze, x, y) <==> (0 <= y < maze.len() && 0 <= x < maze[y]@.len() && maze[y]@[x] == ' '),
        (0 <= y < maze.len() && 0 <= x < maze[y]@.len()) ==> tile(maze, x, y) == Some(maze[y]@[x]),
        !(0 <= y < maze.len() && 0 <= x < maze[y]@.len()) ==> tile(maze, x, y) is None,
{
}

/// Returns the tile at column `x`, row `y`, or `None` outside the grid.
pub fn tile_at(maze: &Maze, x: usize, y: usize) -> (r: Option<char>)
    ensures
        r == tile(maze@, x as int, y as int),
{
    if y < maze.len() && x < maze[y].len() {
        Some(maze[y][x])
    } else {
        None
    }
}

/// Whether column `x`, row `y` is a corridor cell inside the grid.
pub fn is_open(maze: &Maze, x: usize, y: usize) -> (r: bool)
    ensures
        r == open_cell(maze@, x as int, y as int),
{
    y < maze.len() && x < maze[y].len() && maze[y][x] == ' '
}

/// Drops one carriage return at the end of a line that was ended by a newline.
pub open spec fn strip_cr(line: Seq<char>) -> Seq<char> {
    if line.len() > 0 && line.last() == '\r' {
        line.drop_last()
    } else {
        line
    }
}

/// Reads `text` from the left: the lines completed so far (each ended by a
/// newline, which is dropped together with a carriage return before it) and
/// the characters of the line still open.
pub open spec fn scan_lines(text: Seq<char>) -> (Seq<Seq<char>>, Seq<char>)
    decreases text.len(),
{
    if text.len() == 0 {
        (seq![], seq![])
    } else {
        let (done, open) = scan_lines(text.drop_last());
        if text.last() == '\n' {
            (done.push(strip_cr(open)), seq![])
        } else {
            (done, open.push(text.last()))
        }
    }
}

/// The lines of `text`: split at each newline, with `"\r\n"` ends removed,
/// and a last line without a newline kept only when it is not empty.
pub open spec fn text_lines(text: Seq<char>) -> Seq<Seq<char>> {
    let (done, open) = scan_lines(text);
    if open.len() > 0 {
        done.push(open)
    } else {
        done
    }
}

/// The rows of a maze, each as the sequence of its tiles.
pub open spec fn rows_of(maze: Seq<Vec<char>>) -> Seq<Seq<char>> {
    maze.map_values(|row: Vec<char>| row@)
}

/// Builds the maze from the text of a maze file: one row per line.
pub fn parse_maze(text: &Vec<char>) -> (maze: Maze)
    ensures
        rows_of(maze@) == text_lines(text@),
{
    let mut rows: Vec<Vec<char>> = Vec::new();
    let mut open: Vec<char> = Vec::new();
    let n = text.len();
    for i in 0..n
        invariant
            n == text.len(),
            (rows_of(rows@), open@) == scan_lines(text@.take(i as int)),
    {
        proof {
            assert(text@.take(i + 1).drop_last() =~= text@.take(i as int));
        }
        let c = text[i];
        if c == '\n' {
            let mut line = open;
            let len = line.len();
            if len > 0 && line[len - 1] == '\r' {
                line.pop();
            }
            proof {
                assert(line@ == strip_cr(scan_lines(text@.take(i as int)).1));
            }
            rows.push(line);
            open = Vec::new();
            proof {
                assert(rows_of(rows@) =~= scan_lines(text@.take(i + 1)).0);
                assert(open@ =~= scan_lines(text@.take(i + 1)).1);
            }
        } else {
            open.push(c);
            proof {
                assert(rows_of(rows@) =~= scan_lines(text@.take(i + 1)).0);
            }
        }
    }
    proof {
        assert(text@.take(n as int) =~= text@);
    }
    if open.len() > 0 {
        rows.push(open);
        proof {
            assert(rows_of(rows@) =~= text_lines(text@));
        }
    }
    rows
}

} // verus!
