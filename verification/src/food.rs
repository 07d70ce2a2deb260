//! Where new food goes: a cell inside the border that the snake does not cover.

use crate::random::gen_range;
use crate::snake::{Cell, Snake, SnakeView};
use rand::thread_rng;
use vstd::prelude::*;

verus! {

/// Random cells tried for new food before the board is searched in order.
pub const SPAWN_ATTEMPTS: u32 = 64;

/// Strictly inside the border ring of a board of the given extent.
pub open spec fn inside(width: i32, height: i32, c: Cell) -> bool {
    0 < c.0 < width - 1 && 0 < c.1 < height - 1
}

/// Inside the border and not under the snake: where food may lie.
pub open spec fn free(width: i32, height: i32, snake: SnakeView, c: Cell) -> bool {
    inside(width, height, c) && !snake.occupies(c)
}

/// No cell is free.
pub open spec fn full(width: i32, height: i32, snake: SnakeView) -> bool {
    forall|c: Cell| !#[trigger] free(width, height, snake, c)
}

/// Whether `(x, y)` is free, so that food may be put there.
pub fn is_free(width: i32, height: i32, snake: &Snake, x: i32, y: i32) -> (ok: bool)
    ensures
        ok == free(width, height, snake@, (x, y)),
{
    width > 2 && height > 2 && x > 0 && y > 0 && x < width - 1 && y < height - 1
        && !snake.overlap_tail(x, y)
}

/// The first free cell, column by column and downwards in each, if any cell is free.
pub fn first_free(width: i32, height: i32, snake: &Snake) -> (found: Option<Cell>)
    ensures
        match found {
            Some(c) => free(width, height, snake@, c) && forall|d: Cell|
                d.0 < c.0 || (d.0 == c.0 && d.1 < c.1) ==> !#[trigger] free(
                    width,
                    height,
                    snake@,
                    d,
                ),
            None => full(width, height, snake@),
        },
{
    if width <= 2 || height <= 2 {
        return None;
    }
    let mut x: i32 = 1;
    while x < width - 1
        invariant
            width > 2 && height > 2,
            1 <= x,
            forall|d: Cell| d.0 < x ==> !#[trigger] free(width, height, snake@, d),
        decreases width - x,
    {
        let mut y: i32 = 1;
        while y < height - 1
            invariant
                width > 2 && height > 2,
                1 <= x < width - 1,
                1 <= y,
                forall|d: Cell| d.0 < x ==> !#[trigger] free(width, height, snake@, d),
                forall|d: Cell| d.0 == x && d.1 < y ==> !#[trigger] free(width, height, snake@, d),
            decreases height - y,
        {
            if !snake.overlap_tail(x, y) {
                return Some((x, y));
            }
            y += 1;
        }
        x += 1;
    }
    None
}

/// A cell for new food. Random cells inside the border are tried first and
/// those under the snake rejected; after `SPAWN_ATTEMPTS` rejections the
/// board is searched in order, so the search ends on every board, and it
/// finds a cell wherever one is free.
pub fn spawn(width: i32, height: i32, snake: &Snake) -> (food: Option<Cell>)
    ensures
        match food {
            Some(c) => free(width, height, snake@, c),
            None => full(width, height, snake@),
        },
{
    if width <= 2 || height <= 2 {
        return None;
    }
    let mut rng = thread_rng();
    let mut attempts: u32 = 0;
    while attempts < SPAWN_ATTEMPTS
        invariant
            width > 2 && height > 2,
        decreases SPAWN_ATTEMPTS - attempts,
    {
        let new_x: i32 = gen_range(&mut rng, 1, width - 1);
        let new_y: i32 = gen_range(&mut rng, 1, height - 1);
        if is_free(width, height, snake, new_x, new_y) {
            return Some((new_x, new_y));
        }
        attempts += 1;
    }
    first_free(width, height, snake)
}

} // verus!
