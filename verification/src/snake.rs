//! The snake: an ordered body of grid cells, a heading, and the cell that
//! last left the tail.

use std::collections::VecDeque;
use vstd::prelude::*;

verus! {

/// A grid coordinate: column, then row.
pub type Cell = (i32, i32);

/// One of the four headings on the grid.
#[derive(Copy, Clone, Debug, PartialEq, Eq, Structural)]
pub enum Direction {
    Up,
    Down,
    Left,
    Right,
}

impl Direction {
    /// The heading that points the other way.
    pub open spec fn spec_opposite(&self) -> Direction {
        match *self {
            Direction::Up => Direction::Down,
            Direction::Down => Direction::Up,
            Direction::Left => Direction::Right,
            Direction::Right => Direction::Left,
        }
    }

    #[verifier::when_used_as_spec(spec_opposite)]
    pub fn opposite(&self) -> (r: Direction)
        ensures
            r == self.spec_opposite(),
    {
        match *self {
            Direction::Up => Direction::Down,
            Direction::Down => Direction::Up,
            Direction::Left => Direction::Right,
            Direction::Right => Direction::Left,
        }
    }
}

/// Whether the neighbour of `c` towards `d` has coordinates that an `i32` holds.
pub open spec fn can_step(c: Cell, d: Direction) -> bool {
    match d {
        Direction::Up => c.1 > i32::MIN,
        Direction::Down => c.1 < i32::MAX,
        Direction::Left => c.0 > i32::MIN,
        Direction::Right => c.0 < i32::MAX,
    }
}

/// The neighbour of `c` towards `d`: rows grow downwards, columns to the right.
pub open spec fn step(c: Cell, d: Direction) -> Cell
    recommends
        can_step(c, d),
{
    match d {
        Direction::Up => (c.0, (c.1 - 1) as i32),
        Direction::Down => (c.0, (c.1 + 1) as i32),
        Direction::Left => ((c.0 - 1) as i32, c.1),
        Direction::Right => ((c.0 + 1) as i32, c.1),
    }
}

/// What a snake is: its cells from head to tail, its heading, and the cell
/// that the last move took off the tail.
pub struct SnakeView {
    pub body: Seq<Cell>,
    pub direction: Direction,
    pub last_removed: Option<Cell>,
}

impl SnakeView {
    /// A snake of three cells in a row, the tail at `(x, y)`, heading right.
    pub open spec fn initial(x: i32, y: i32) -> SnakeView {
        SnakeView {
            body: seq![((x + 2) as i32, y), ((x + 1) as i32, y), (x, y)],
            direction: Direction::Right,
            last_removed: None,
        }
    }

    pub open spec fn head(self) -> Cell
        recommends
            self.body.len() >= 1,
    {
        self.body[0]
    }

    /// The heading of the next step: the override if there is one.
    pub open spec fn course(self, dir: Option<Direction>) -> Direction {
        match dir {
            Some(d) => d,
            None => self.direction,
        }
    }

    pub open spec fn next_head(self, dir: Option<Direction>) -> Cell {
        step(self.head(), self.course(dir))
    }

    pub open spec fn occupies(self, c: Cell) -> bool {
        self.body.contains(c)
    }

    /// One step: a new head in front, the tail cell taken off and remembered.
    pub open spec fn moved(self, dir: Option<Direction>) -> SnakeView {
        SnakeView {
            body: seq![self.next_head(dir)] + self.body.drop_last(),
            direction: self.course(dir),
            last_removed: Some(self.body.last()),
        }
    }

    /// The remembered cell put back behind the tail; nothing where none is remembered.
    pub open spec fn grown(self) -> SnakeView {
        match self.last_removed {
            Some(c) => SnakeView { body: self.body.push(c), ..self },
            None => self,
        }
    }
}

/// The snake: its cells from head to tail, its heading, and the cell that
/// its last move took off the tail.
pub struct Snake {
    direction: Direction,
    body: VecDeque<Cell>,
    tail: Option<Cell>,
}

impl View for Snake {
    type V = SnakeView;

    closed spec fn view(&self) -> SnakeView {
        SnakeView { body: self.body@, direction: self.direction, last_removed: self.tail }
    }
}

impl Snake {
    /// A snake always has a head.
    pub open spec fn wf(&self) -> bool {
        self@.body.len() >= 1
    }

    pub fn snake(x: i32, y: i32) -> (s: Snake)
        requires
            x <= i32::MAX - 2,
        ensures
            s@ == SnakeView::initial(x, y),
            s@.body.len() == 3,
            s@.body.no_duplicates(),
            s@.head().0 == x + 2,
            s@.head().1 == y,
            s.wf(),
    {
        let mut body: VecDeque<Cell> = VecDeque::new();
        body.push_back((x + 2, y));
        body.push_back((x + 1, y));
        body.push_back((x, y));
        assert(body@ =~= SnakeView::initial(x, y).body);
        Snake { direction: Direction::Right, body, tail: None }
    }

    /// The cells to paint, from head to tail.
    pub fn draw(&self) -> (cells: Vec<Cell>)
        ensures
            cells@ == self@.body,
    {
        let mut cells: Vec<Cell> = Vec::new();
        let mut i: usize = 0;
        while i < self.body.len()
            invariant
                i <= self.body@.len(),
                cells@ == self.body@.take(i as int),
            decreases self.body@.len() - i,
        {
            cells.push(self.body[i]);
            i += 1;
            assert(cells@ =~= self.body@.take(i as int));
        }
        assert(self.body@.take(i as int) =~= self.body@);
        cells
    }

    pub fn head_position(&self) -> (head: Cell)
        requires
            self.wf(),
        ensures
            head == self@.head(),
    {
        self.body[0]
    }

    pub fn move_forward(&mut self, dir: Option<Direction>)
        requires
            old(self).wf(),
            can_step(old(self)@.head(), old(self)@.course(dir)),
        ensures
            final(self)@ == old(self)@.moved(dir),
            final(self).wf(),
    {
        let new_block: Cell = self.next_head(dir);
        if let Some(d) = dir {
            self.direction = d;
        }
        self.body.push_front(new_block);
        let removed_block: Option<Cell> = self.body.pop_back();
        self.tail = removed_block;
        assert(self.body@ =~= old(self)@.moved(dir).body);
    }

    pub fn head_direction(&self) -> (d: Direction)
        ensures
            d == self@.direction,
    {
        self.direction
    }

    /// The cell that the head would enter, with nothing changed.
    pub fn next_head(&self, dir: Option<Direction>) -> (next: Cell)
        requires
            self.wf(),
            can_step(self@.head(), self@.course(dir)),
        ensures
            next == self@.next_head(dir),
    {
        let (head_x, head_y): Cell = self.head_position();
        let moving_direction: Direction = match dir {
            Some(d) => d,
            None => self.direction,
        };
        match moving_direction {
            Direction::Up => (head_x, head_y - 1),
            Direction::Down => (head_x, head_y + 1),
            Direction::Right => (head_x + 1, head_y),
            Direction::Left => (head_x - 1, head_y),
        }
    }

    pub fn restore_tail(&mut self)
        ensures
            final(self)@ == old(self)@.grown(),
            old(self).wf() ==> final(self).wf(),
    {
        if let Some(block) = self.tail {
            self.body.push_back(block);
        }
    }

    /// Whether any cell of the body, the head included, lies at `(x, y)`.
    pub fn overlap_tail(&self, x: i32, y: i32) -> (hit: bool)
        ensures
            hit == self@.occupies((x, y)),
    {
        let mut i: usize = 0;
        while i < self.body.len()
            invariant
                i <= self.body@.len(),
                forall|j: int| 0 <= j < i ==> self.body@[j] != (x, y),
            decreases self.body@.len() - i,
        {
            let block: Cell = self.body[i];
            if block.0 == x && block.1 == y {
                return true;
            }
            i += 1;
        }
        false
    }

    /// The cell that the last move took off the tail, if a move was made.
    pub fn last_removed(&self) -> (cell: Option<Cell>)
        ensures
            cell == self@.last_removed,
    {
        self.tail
    }

    /// The number of cells of the body.
    pub fn len(&self) -> (n: usize)
        ensures
            n == self@.body.len(),
    {
        self.body.len()
    }
}

/// A step into a cell that the body does not hold keeps the cells of the body
/// distinct, and so does putting the dropped tail cell back after it.
pub proof fn lemma_step_keeps_cells_distinct(s: SnakeView, dir: Option<Direction>)
    requires
        s.body.len() >= 1,
        s.body.no_duplicates(),
        !s.occupies(s.next_head(dir)),
    ensures
        s.moved(dir).body.no_duplicates(),
        s.moved(dir).grown().body.no_duplicates(),
        s.moved(dir).grown().body == seq![s.next_head(dir)] + s.body,
{
    let m = s.moved(dir).body;
    let g = s.moved(dir).grown().body;
    let n = s.next_head(dir);
    assert(g =~= seq![n] + s.body);
    assert forall|i: int, j: int| 0 <= i < g.len() && 0 <= j < g.len() && i != j implies g[i]
        != g[j] by {
        if i == 0 {
            assert(s.body.contains(s.body[j - 1]));
        } else if j == 0 {
            assert(s.body.contains(s.body[i - 1]));
        } else {
            assert(g[i] == s.body[i - 1] && g[j] == s.body[j - 1]);
        }
    }
    assert forall|i: int, j: int| 0 <= i < m.len() && 0 <= j < m.len() && i != j implies m[i]
        != m[j] by {
        assert(m[i] == g[i] && m[j] == g[j]);
    }
}

} // verus!
