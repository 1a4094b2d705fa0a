//! Static board geometry: the 12 cell rectangles and the adjacency table.
//!
//! The board is an irregular grid of 12 cells (rows of 2, 4, 4 and 2 cells,
//! the four corners of a 4x4 grid missing). Each cell has a fixed rectangle
//! on screen, used for hit-testing pointer positions, and a fixed set of
//! neighbours, one per compass direction. Directions use the numpad
//! convention without the centre: 1=SW, 2=S, 3=SE, 4=W, 6=E, 7=NW, 8=N, 9=NE.

use vstd::prelude::*;

verus! {

/// Number of cells on the board.
pub const FIELD_COUNT: usize = 12;

/// Width of a cell rectangle.
pub const FIELD_W: i32 = 80;

/// Height of a cell rectangle.
pub const FIELD_H: i32 = 84;

/// Top-left corner of cell `i`'s rectangle.
pub open spec fn field_coords_spec(i: int) -> (int, int) {
    if i == 0 {
        (185, 88)
    } else if i == 1 {
        (282, 87)
    } else if i == 2 {
        (86, 185)
    } else if i == 3 {
        (184, 183)
    } else if i == 4 {
        (282, 183)
    } else if i == 5 {
        (379, 183)
    } else if i == 6 {
        (86, 282)
    } else if i == 7 {
        (183, 282)
    } else if i == 8 {
        (281, 282)
    } else if i == 9 {
        (379, 281)
    } else if i == 10 {
        (183, 381)
    } else {
        (281, 379)
    }
}

/// Whether the point `(x, y)` lies on cell `i`'s rectangle, bounds included.
pub open spec fn on_field_spec(i: int, x: int, y: int) -> bool {
    field_coords_spec(i).0 <= x <= field_coords_spec(i).0 + FIELD_W
        && field_coords_spec(i).1 <= y <= field_coords_spec(i).1 + FIELD_H
}

/// The 12 rectangles are pairwise disjoint: a point lies on at most one.
pub proof fn lemma_fields_disjoint(i: int, j: int, x: int, y: int)
    requires
        0 <= i < 12,
        0 <= j < 12,
        on_field_spec(i, x, y),
        on_field_spec(j, x, y),
    ensures
        i == j,
{
}

/// Top-left corner of cell `i`'s rectangle.
pub fn field_coords(i: usize) -> (r: (i32, i32))
    requires
        i < 12,
    ensures
        r.0 == field_coords_spec(i as int).0,
        r.1 == field_coords_spec(i as int).1,
{
    match i {
        0 => (185, 88),
        1 => (282, 87),
        2 => (86, 185),
        3 => (184, 183),
        4 => (282, 183),
        5 => (379, 183),
        6 => (86, 282),
        7 => (183, 282),
        8 => (281, 282),
        9 => (379, 281),
        10 => (183, 381),
        _ => (281, 379),
    }
}

/// The cell reached from `origin` in compass direction `dir`, or `None`
/// where the board has no cell there. Mirrors the board's physical shape:
/// rows of 2, 4, 4 and 2 cells.
pub open spec fn neighbor_spec(origin: int, dir: int) -> Option<int> {
    if dir == 1 {
        if origin == 0 || origin == 1 || origin == 8 || origin == 9 {
            Some(origin + 2)
        } else if 3 <= origin <= 5 {
            Some(origin + 3)
        } else {
            None
        }
    } else if dir == 2 {
        if origin == 0 || origin == 1 || origin == 7 || origin == 8 {
            Some(origin + 3)
        } else if 3 <= origin <= 5 {
            Some(origin + 4)
        } else {
            None
        }
    } else if dir == 3 {
        if origin == 0 || origin == 1 || origin == 6 || origin == 7 {
            Some(origin + 4)
        } else if 2 <= origin <= 4 {
            Some(origin + 5)
        } else {
            None
        }
    } else if dir == 4 {
        if origin == 1 || 3 <= origin <= 5 || 7 <= origin <= 9 || origin == 11 {
            Some(origin - 1)
        } else {
            None
        }
    } else if dir == 6 {
        if origin == 0 || 2 <= origin <= 4 || 6 <= origin <= 8 || origin == 10 {
            Some(origin + 1)
        } else {
            None
        }
    } else if dir == 7 {
        if origin == 4 || origin == 5 || origin == 10 || origin == 11 {
            Some(origin - 4)
        } else if 7 <= origin <= 9 {
            Some(origin - 5)
        } else {
            None
        }
    } else if dir == 8 {
        if origin == 3 || origin == 4 || origin == 10 || origin == 11 {
            Some(origin - 3)
        } else if 6 <= origin <= 9 {
            Some(origin - 4)
        } else {
            None
        }
    } else if dir == 9 {
        if origin == 2 || origin == 3 || origin == 10 || origin == 11 {
            Some(origin - 2)
        } else if 6 <= origin <= 8 {
            Some(origin - 3)
        } else {
            None
        }
    } else {
        None
    }
}

/// A cell is never its own neighbour, and every neighbour is on the board.
pub proof fn lemma_neighbor_in_range(origin: int, dir: int)
    requires
        0 <= origin < 12,
    ensures
        neighbor_spec(origin, dir) matches Some(t) ==> 0 <= t < 12 && t != origin,
{
}

/// The cell reached from `origin` in direction `direction`, or `None` where
/// the board ends.
pub fn neighbor(origin: usize, direction: u8) -> (r: Option<usize>)
    requires
        origin < 12,
    ensures
        r is None <==> neighbor_spec(origin as int, direction as int) is None,
        r matches Some(t) ==> neighbor_spec(origin as int, direction as int) == Some(t as int)
            && t < 12 && t != origin,
{
    match direction {
        1 => match origin {
            0 | 1 | 8 | 9 => Some(origin + 2),
            3 | 4 | 5 => Some(origin + 3),
            _ => None,
        },
        2 => match origin {
            0 | 1 | 7 | 8 => Some(origin + 3),
            3 | 4 | 5 => Some(origin + 4),
            _ => None,
        },
        3 => match origin {
            0 | 1 | 6 | 7 => Some(origin + 4),
            2 | 3 | 4 => Some(origin + 5),
            _ => None,
        },
        4 => match origin {
            1 | 3 | 4 | 5 | 7 | 8 | 9 | 11 => Some(origin - 1),
            _ => None,
        },
        6 => match origin {
            0 | 2 | 3 | 4 | 6 | 7 | 8 | 10 => Some(origin + 1),
            _ => None,
        },
        7 => match origin {
            4 | 5 | 10 | 11 => Some(origin - 4),
            7 | 8 | 9 => Some(origin - 5),
            _ => None,
        },
        8 => match origin {
            3 | 4 | 10 | 11 => Some(origin - 3),
            6 | 7 | 8 | 9 => Some(origin - 4),
            _ => None,
        },
        9 => match origin {
            2 | 3 | 10 | 11 => Some(origin - 2),
            6 | 7 | 8 => Some(origin - 3),
            _ => None,
        },
        _ => None,
    }
}

} // verus!
