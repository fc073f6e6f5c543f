//! The mazes of the three levels.
//!
//! A maze is a grid of 11 rows of 11 cells. A cell says which walls start
//! in it: 1 a wall towards the next row, 3 a wall towards the next column,
//! 4 both, anything else none.

use vstd::prelude::*;

verus! {

/// Rows of a maze, and cells of a row.
pub const MAZE_SIZE: usize = 11;

/// The maze of level 1.
pub const FIRST_MAZE: [[u8; 11]; 11] = [
    [4, 3, 2, 3, 3, 3, 3, 4, 3, 3, 1],
    [1, 1, 1, 3, 3, 2, 1, 1, 3, 1, 1],
    [1, 2, 2, 2, 3, 3, 2, 2, 2, 3, 1],
    [1, 3, 3, 2, 3, 3, 1, 2, 3, 2, 1],
    [1, 1, 3, 2, 3, 2, 3, 2, 3, 1, 2],
    [2, 3, 3, 2, 1, 2, 3, 3, 2, 1, 1],
    [1, 3, 3, 2, 1, 2, 2, 1, 2, 1, 1],
    [1, 2, 3, 1, 1, 2, 3, 2, 1, 2, 1],
    [1, 3, 2, 2, 3, 2, 1, 2, 1, 2, 1],
    [1, 3, 3, 3, 2, 4, 2, 2, 2, 3, 1],
    [3, 3, 3, 3, 3, 3, 3, 3, 2, 3, 2],
];

/// The maze of level 2.
pub const SECOND_MAZE: [[u8; 11]; 11] = [
    [4, 3, 2, 3, 3, 4, 3, 4, 3, 3, 1],
    [1, 1, 1, 3, 3, 2, 1, 1, 3, 1, 1],
    [1, 2, 2, 3, 3, 3, 2, 1, 2, 3, 1],
    [1, 3, 3, 2, 3, 3, 1, 2, 3, 2, 1],
    [1, 1, 3, 2, 3, 2, 3, 2, 3, 1, 1],
    [1, 3, 3, 2, 1, 2, 3, 3, 2, 1, 1],
    [1, 3, 3, 2, 1, 2, 2, 1, 1, 1, 1],
    [1, 2, 3, 1, 4, 2, 3, 2, 4, 2, 1],
    [1, 3, 2, 2, 3, 2, 1, 2, 4, 2, 1],
    [1, 3, 3, 3, 2, 4, 2, 2, 2, 3, 1],
    [3, 3, 3, 3, 3, 3, 3, 3, 2, 3, 2],
];

/// The maze of level 3.
pub const THIRD_MAZE: [[u8; 11]; 11] = [
    [4, 3, 3, 3, 3, 4, 3, 4, 3, 3, 1],
    [1, 1, 1, 3, 3, 2, 1, 1, 3, 1, 1],
    [1, 2, 4, 3, 4, 3, 2, 1, 3, 3, 1],
    [1, 3, 3, 2, 3, 3, 1, 2, 3, 3, 1],
    [1, 1, 3, 2, 4, 2, 3, 2, 3, 1, 1],
    [1, 3, 3, 2, 4, 3, 3, 3, 2, 1, 1],
    [1, 3, 3, 2, 1, 4, 2, 4, 1, 1, 1],
    [1, 4, 3, 1, 4, 2, 3, 2, 4, 2, 1],
    [1, 3, 2, 4, 3, 2, 1, 4, 4, 2, 1],
    [1, 3, 3, 3, 2, 4, 2, 2, 2, 3, 1],
    [3, 3, 3, 3, 3, 3, 3, 3, 3, 3, 2],
];

/// The maze that goes by `name`: `Map1`, `Map2`, and the third for any
/// other name.
pub open spec fn maze_named(name: Seq<char>) -> [[u8; 11]; 11] {
    if name == "Map1"@ {
        FIRST_MAZE
    } else if name == "Map2"@ {
        SECOND_MAZE
    } else {
        THIRD_MAZE
    }
}

/// The rows of `maze` hold the cells of `table`.
pub open spec fn holds(maze: Seq<Vec<u8>>, table: [[u8; 11]; 11]) -> bool {
    &&& maze.len() == MAZE_SIZE
    &&& forall|row: int| 0 <= row < MAZE_SIZE ==> (#[trigger] maze[row])@ == table@[row]@
}

/// Whether two texts are the same.
fn same_text(left: &str, right: &str) -> (same: bool)
    ensures
        same == (left@ == right@),
{
    left.to_owned() == right.to_owned()
}

/// Copies a table into rows.
fn rows_of(table: &[[u8; 11]; 11]) -> (maze: Vec<Vec<u8>>)
    ensures
        holds(maze@, *table),
{
    let mut maze: Vec<Vec<u8>> = Vec::new();
    let mut row: usize = 0;
    while row < 11
        invariant
            row <= 11,
            maze@.len() == row,
            forall|done: int| 0 <= done < row ==> (#[trigger] maze@[done])@ == table@[done]@,
        decreases 11 - row,
    {
        let mut cells: Vec<u8> = Vec::new();
        let mut column: usize = 0;
        while column < 11
            invariant
                row < 11,
                column <= 11,
                cells@.len() == column,
                forall|done: int| 0 <= done < column ==> cells@[done] == table@[row as int]@[done],
            decreases 11 - column,
        {
            cells.push(table[row][column]);
            column = column + 1;
        }
        assert(cells@ =~= table@[row as int]@);
        maze.push(cells);
        row = row + 1;
    }
    maze
}

/// The maze that goes by `name`, row by row.
pub fn get_mazes(name: &str) -> (maze: Vec<Vec<u8>>)
    ensures
        holds(maze@, maze_named(name@)),
{
    if same_text(name, "Map1") {
        rows_of(&FIRST_MAZE)
    } else if same_text(name, "Map2") {
        rows_of(&SECOND_MAZE)
    } else {
        rows_of(&THIRD_MAZE)
    }
}

/// The walls that start in a cell.
#[derive(Debug, Clone, Copy, PartialEq, Eq, Structural)]
pub struct Walls {
    /// A wall towards the next row.
    pub vertical: bool,
    /// A wall towards the next column.
    pub horizontal: bool,
}

/// The walls that start in a cell of this value.
pub fn walls_of(cell: u8) -> (walls: Walls)
    ensures
        walls.vertical == (cell == 4 || cell == 1),
        walls.horizontal == (cell == 4 || cell == 3),
{
    Walls { vertical: cell == 4 || cell == 1, horizontal: cell == 4 || cell == 3 }
}

} // verus!
