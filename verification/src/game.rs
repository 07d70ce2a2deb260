//! The board and the round: timed ticks, direction requests, collisions,
//! food, and the restart after a lost round.

use crate::food::{free, full, inside, is_free, spawn};
use crate::snake::lemma_step_keeps_cells_distinct;
use crate::snake::{Cell, Direction, Snake, SnakeView};
use vstd::prelude::*;

verus! {

/// Microseconds between two timed steps of the snake.
pub const MOVING_PERIOD: u64 = 200_000;

/// Microseconds that a lost round stays on the board before the next begins.
pub const RESTART_TIME: u64 = 1_000_000;

/// A key as the game sees it: an arrow, or anything else.
#[derive(Copy, Clone, Debug, PartialEq, Eq, Structural)]
pub enum Key {
    Up,
    Down,
    Left,
    Right,
    Other,
}

impl Key {
    /// The direction that the key asks for: an arrow its own, any other key
    /// the heading that the snake already has.
    pub open spec fn direction(self, heading: Direction) -> Direction {
        match self {
            Key::Up => Direction::Up,
            Key::Down => Direction::Down,
            Key::Left => Direction::Left,
            Key::Right => Direction::Right,
            Key::Other => heading,
        }
    }
}

/// A filled rectangle of cells: its top left cell and its extent.
#[derive(Copy, Clone, Debug, PartialEq, Eq, Structural)]
pub struct Rect {
    pub x: i32,
    pub y: i32,
    pub width: i32,
    pub height: i32,
}

/// What there is to paint: the snake from head to tail, the food, the four
/// sides of the border (top, bottom, left, right) and, once the round is
/// lost, the rectangle to tint.
pub struct DrawRequest {
    pub snake_cells: Vec<Cell>,
    pub food: Option<Cell>,
    pub border: [Rect; 4],
    pub overlay: Option<Rect>,
}

/// What a game is.
pub struct GameView {
    pub snake: SnakeView,
    pub food: Option<Cell>,
    pub width: i32,
    pub height: i32,
    pub waiting_time: u64,
    pub game_over: bool,
}

impl GameView {
    /// A fresh round on a board of the given extent.
    pub open spec fn initial(width: i32, height: i32) -> GameView {
        GameView {
            snake: SnakeView::initial(2, 2),
            food: None,
            width,
            height,
            waiting_time: 0,
            game_over: false,
        }
    }

    /// Strictly inside the border ring.
    pub open spec fn inside(self, c: Cell) -> bool {
        inside(self.width, self.height, c)
    }

    /// Inside the border and not under the snake: where food may lie.
    pub open spec fn free(self, c: Cell) -> bool {
        free(self.width, self.height, self.snake, c)
    }

    /// What every reachable game satisfies: a board of positive extent; a
    /// snake of distinct cells whose head is where a round starts or inside
    /// the border; food, if any, on a free cell.
    pub open spec fn valid(self) -> bool {
        &&& self.width > 0
        &&& self.height > 0
        &&& self.snake.body.len() >= 1
        &&& self.snake.body.no_duplicates()
        &&& (self.snake.head() == SnakeView::initial(2, 2).head() || self.inside(
            self.snake.head(),
        ))
        &&& match self.food {
            Some(c) => self.free(c),
            None => true,
        }
    }

    /// Whether the step survives: the cell ahead is inside the border and not
    /// under the snake.
    pub open spec fn alive(self, dir: Option<Direction>) -> bool {
        let next = self.snake.next_head(dir);
        !self.snake.occupies(next) && self.inside(next)
    }

    /// Food under the head is eaten, and the snake gets its last tail cell back.
    pub open spec fn fed(self) -> GameView {
        if self.food == Some(self.snake.head()) {
            GameView { food: None, snake: self.snake.grown(), ..self }
        } else {
            self
        }
    }

    /// One step: the snake moves and eats, or the round is lost and the
    /// snake stays. The clock starts anew either way.
    pub open spec fn advanced(self, dir: Option<Direction>) -> GameView {
        if self.alive(dir) {
            GameView { snake: self.snake.moved(dir), waiting_time: 0, ..self }.fed()
        } else {
            GameView { game_over: true, waiting_time: 0, ..self }
        }
    }

    /// A direction request: nothing once the round is lost, nothing for a
    /// reversal, else a step in that direction at once.
    pub open spec fn requested(self, d: Direction) -> GameView {
        if self.game_over || d == self.snake.direction.spec_opposite() {
            self
        } else {
            self.advanced(Some(d))
        }
    }

    /// `c` as food, where it is free; else nothing changes.
    pub open spec fn placed(self, c: Cell) -> GameView {
        if self.free(c) {
            GameView { food: Some(c), ..self }
        } else {
            self
        }
    }

    /// What the food may be after a tick: what it was, while the round is
    /// lost or food lies on the board; else some free cell, and none only
    /// where no cell is free.
    pub open spec fn may_spawn(self, food: Option<Cell>) -> bool {
        if self.game_over || self.food is Some {
            food == self.food
        } else {
            match food {
                Some(c) => self.free(c),
                None => full(self.width, self.height, self.snake),
            }
        }
    }

    /// The clock after `delta` more microseconds; it stops at the largest value.
    pub open spec fn clock(self, delta: u64) -> u64 {
        if self.waiting_time + delta > u64::MAX {
            u64::MAX
        } else {
            (self.waiting_time + delta) as u64
        }
    }

    /// The four sides of the border ring: top, bottom, left, right.
    pub open spec fn border(self) -> Seq<Rect> {
        seq![
            (Rect { x: 0, y: 0, width: self.width, height: 1 }),
            (Rect { x: 0, y: (self.height - 1) as i32, width: self.width, height: 1 }),
            (Rect { x: 0, y: 0, width: 1, height: self.height }),
            (Rect { x: (self.width - 1) as i32, y: 0, width: 1, height: self.height }),
        ]
    }

    /// The whole board, to be tinted once the round is lost.
    pub open spec fn overlay(self) -> Option<Rect> {
        if self.game_over {
            Some((Rect { x: 0, y: 0, width: self.width, height: self.height }))
        } else {
            None
        }
    }

    /// A tick of `delta` microseconds after which the food is `food`.
    pub open spec fn ticked(self, delta: u64, food: Option<Cell>) -> GameView {
        let t = self.clock(delta);
        if self.game_over {
            if t > RESTART_TIME {
                GameView::initial(self.width, self.height)
            } else {
                GameView { waiting_time: t, ..self }
            }
        } else {
            let spawned = GameView { food, waiting_time: t, ..self };
            if t > MOVING_PERIOD {
                spawned.advanced(None)
            } else {
                spawned
            }
        }
    }
}

/// A board, the snake on it, the food if there is any, the time since the
/// last step, and whether the round is lost.
pub struct Game {
    snake: Snake,
    food_exists: bool,
    food_x: i32,
    food_y: i32,
    width: i32,
    height: i32,
    waiting_time: u64,
    game_over: bool,
}

impl View for Game {
    type V = GameView;

    closed spec fn view(&self) -> GameView {
        GameView {
            snake: self.snake@,
            food: if self.food_exists {
                Some((self.food_x, self.food_y))
            } else {
                None
            },
            width: self.width,
            height: self.height,
            waiting_time: self.waiting_time,
            game_over: self.game_over,
        }
    }
}

impl Game {
    /// What `new` establishes and every method keeps.
    pub open spec fn wf(&self) -> bool {
        self@.valid()
    }

    pub fn new(width: i32, height: i32) -> (game: Game)
        requires
            width > 0,
            height > 0,
        ensures
            game@ == GameView::initial(width, height),
            game@.snake.body.len() == 3,
            game@.snake.head() == (4i32, 2i32),
            game.wf(),
    {
        Game {
            snake: Snake::snake(2, 2),
            food_exists: false,
            food_x: 0,
            food_y: 0,
            width,
            height,
            waiting_time: 0,
            game_over: false,
        }
    }

    /// A key went down: an arrow asks for its direction, any other key for
    /// the heading that the snake has.
    pub fn key_pressed(&mut self, key: Key)
        requires
            old(self).wf(),
        ensures
            final(self)@ == old(self)@.requested(key.direction(old(self)@.snake.direction)),
            final(self).wf(),
    {
        let direction: Direction = match key {
            Key::Up => Direction::Up,
            Key::Down => Direction::Down,
            Key::Right => Direction::Right,
            Key::Left => Direction::Left,
            Key::Other => self.snake.head_direction(),
        };
        self.request_direction(direction);
    }

    pub fn request_direction(&mut self, requested: Direction)
        requires
            old(self).wf(),
        ensures
            final(self)@ == old(self)@.requested(requested),
            final(self).wf(),
    {
        if self.game_over {
            return;
        }
        if requested == self.snake.head_direction().opposite() {
            return;
        }
        self.update_snake(Some(requested));
    }

    pub fn draw(&self) -> (request: DrawRequest)
        requires
            self.wf(),
        ensures
            request.snake_cells@ == self@.snake.body,
            request.food == self@.food,
            request.border@ == self@.border(),
            request.overlay == self@.overlay(),
    {
        let border: [Rect; 4] = [
            Rect { x: 0, y: 0, width: self.width, height: 1 },
            Rect { x: 0, y: self.height - 1, width: self.width, height: 1 },
            Rect { x: 0, y: 0, width: 1, height: self.height },
            Rect { x: self.width - 1, y: 0, width: 1, height: self.height },
        ];
        assert(border@ =~= self@.border());
        DrawRequest {
            snake_cells: self.snake.draw(),
            food: if self.food_exists {
                Some((self.food_x, self.food_y))
            } else {
                None
            },
            border,
            overlay: if self.game_over {
                Some(Rect { x: 0, y: 0, width: self.width, height: self.height })
            } else {
                None
            },
        }
    }

    fn check_eating(&mut self)
        requires
            old(self)@.snake.body.len() >= 1,
        ensures
            final(self)@ == old(self)@.fed(),
    {
        let (head_x, head_y): Cell = self.snake.head_position();
        if self.food_exists && self.food_x == head_x && self.food_y == head_y {
            self.food_exists = false;
            self.snake.restore_tail();
        }
    }

    /// Puts food at `(x, y)` if that cell is free, and says whether it did.
    pub fn place_food(&mut self, x: i32, y: i32) -> (placed: bool)
        requires
            old(self).wf(),
        ensures
            placed == old(self)@.free((x, y)),
            final(self)@ == old(self)@.placed((x, y)),
            final(self).wf(),
    {
        if is_free(self.width, self.height, &self.snake, x, y) {
            self.food_x = x;
            self.food_y = y;
            self.food_exists = true;
            true
        } else {
            false
        }
    }

    /// New food, wherever a cell is free for it.
    fn add_food(&mut self)
        requires
            old(self).wf(),
            !old(self)@.game_over,
            old(self)@.food is None,
        ensures
            old(self)@.may_spawn(final(self)@.food),
            final(self)@ == (GameView { food: final(self)@.food, ..old(self)@ }),
            final(self).wf(),
    {
        match spawn(self.width, self.height, &self.snake) {
            Some(c) => {
                self.food_x = c.0;
                self.food_y = c.1;
                self.food_exists = true;
            },
            None => {},
        }
    }

    /// `delta_time` more microseconds have passed.
    pub fn update(&mut self, delta_time: u64)
        requires
            old(self).wf(),
        ensures
            exists|food: Option<Cell>| #[trigger]
                old(self)@.may_spawn(food) && final(self)@ == old(self)@.ticked(delta_time, food),
            final(self).wf(),
    {
        self.waiting_time = self.waiting_time.saturating_add(delta_time);
        if self.game_over {
            if self.waiting_time > RESTART_TIME {
                self.restart();
            }
            assert(old(self)@.may_spawn(old(self)@.food));
            assert(self@ == old(self)@.ticked(delta_time, old(self)@.food));
            return;
        }
        if !self.food_exists {
            self.add_food();
        }
        let ghost food = self@.food;
        if self.waiting_time > MOVING_PERIOD {
            self.update_snake(None);
        }
        assert(old(self)@.may_spawn(food));
        assert(self@ == old(self)@.ticked(delta_time, food));
    }

    fn check_if_snake_is_alive(&self, direction: Option<Direction>) -> (alive: bool)
        requires
            self.wf(),
        ensures
            alive == self@.alive(direction),
    {
        let (next_x, next_y): Cell = self.snake.next_head(direction);
        if self.snake.overlap_tail(next_x, next_y) {
            return false;
        }
        next_x > 0 && next_y > 0 && next_x < self.width - 1 && next_y < self.height - 1
    }

    fn update_snake(&mut self, direction: Option<Direction>)
        requires
            old(self).wf(),
        ensures
            final(self)@ == old(self)@.advanced(direction),
            final(self).wf(),
    {
        if self.check_if_snake_is_alive(direction) {
            self.snake.move_forward(direction);
            self.check_eating();
        } else {
            self.game_over = true;
        }
        self.waiting_time = 0;
        proof {
            lemma_advanced_valid(old(self)@, direction);
        }
    }

    /// A fresh round on the same board.
    pub fn restart(&mut self)
        requires
            old(self).wf(),
        ensures
            final(self)@ == GameView::initial(old(self)@.width, old(self)@.height),
            final(self).wf(),
    {
        self.snake = Snake::snake(2, 2);
        self.waiting_time = 0;
        self.food_exists = false;
        self.food_x = 0;
        self.food_y = 0;
        self.game_over = false;
    }

    pub fn snake(&self) -> (snake: &Snake)
        ensures
            snake@ == self@.snake,
    {
        &self.snake
    }

    pub fn food(&self) -> (food: Option<Cell>)
        ensures
            food == self@.food,
    {
        if self.food_exists {
            Some((self.food_x, self.food_y))
        } else {
            None
        }
    }

    pub fn width(&self) -> (width: i32)
        ensures
            width == self@.width,
    {
        self.width
    }

    pub fn height(&self) -> (height: i32)
        ensures
            height == self@.height,
    {
        self.height
    }

    pub fn waiting_time(&self) -> (elapsed: u64)
        ensures
            elapsed == self@.waiting_time,
    {
        self.waiting_time
    }

    pub fn is_game_over(&self) -> (over: bool)
        ensures
            over == self@.game_over,
    {
        self.game_over
    }
}

/// A step keeps a valid game valid, whether the snake moves, eats or dies.
pub proof fn lemma_advanced_valid(g: GameView, dir: Option<Direction>)
    requires
        g.valid(),
    ensures
        g.advanced(dir).valid(),
{
    if g.alive(dir) {
        lemma_step_keeps_cells_distinct(g.snake, dir);
        let m = g.snake.moved(dir);
        let next = g.snake.next_head(dir);
        assert(m.body[0] == next);
        assert forall|c: Cell| m.body.contains(c) implies c == next || g.snake.body.contains(
            c,
        ) by {
            let i = choose|i: int| 0 <= i < m.body.len() && m.body[i] == c;
            if i > 0 {
                assert(g.snake.body[i - 1] == c);
            }
        }
        assert(m.grown().body[0] == next);
    }
}

/// A request keeps a valid game valid.
pub proof fn lemma_requested_valid(g: GameView, d: Direction)
    requires
        g.valid(),
    ensures
        g.requested(d).valid(),
{
    lemma_advanced_valid(g, Some(d));
}

/// A tick keeps a valid game valid, whatever food it brought.
pub proof fn lemma_ticked_valid(g: GameView, delta: u64, food: Option<Cell>)
    requires
        g.valid(),
        g.may_spawn(food),
    ensures
        g.ticked(delta, food).valid(),
{
    if !g.game_over {
        let spawned = GameView { food, waiting_time: g.clock(delta), ..g };
        lemma_advanced_valid(spawned, None);
    }
}

/// On a board that holds the starting snake inside its border, the head of
/// the snake is strictly inside the border in every valid game.
pub proof fn lemma_head_inside_border(g: GameView)
    requires
        g.valid(),
        g.width >= 6,
        g.height >= 4,
    ensures
        1 <= g.snake.head().0 <= g.width - 2,
        1 <= g.snake.head().1 <= g.height - 2,
{
}

/// Once the round is lost, a request changes nothing and a tick only counts
/// down to the fresh round.
pub proof fn lemma_lost_round_only_counts(g: GameView, d: Direction, delta: u64, food: Option<Cell>)
    requires
        g.game_over,
    ensures
        g.requested(d) == g,
        g.clock(delta) <= RESTART_TIME ==> g.ticked(delta, food) == (GameView {
            waiting_time: g.clock(delta),
            ..g
        }),
        g.clock(delta) > RESTART_TIME ==> g.ticked(delta, food) == GameView::initial(
            g.width,
            g.height,
        ),
{
}

/// A request for the reverse of the heading is dropped: the heading, the
/// body and everything else stay as they were.
pub proof fn lemma_reversal_is_ignored(g: GameView)
    ensures
        g.requested(g.snake.direction.spec_opposite()) == g,
{
}

/// A step onto the food eats it: the food is gone, and the body is the old
/// body with the new head in front, one cell longer.
pub proof fn lemma_eating_grows_by_one(g: GameView, dir: Option<Direction>)
    requires
        g.valid(),
        g.alive(dir),
        g.food == Some(g.snake.next_head(dir)),
    ensures
        g.advanced(dir).food is None,
        g.advanced(dir).snake.body.len() == g.snake.body.len() + 1,
        g.advanced(dir).snake.body == seq![g.snake.next_head(dir)] + g.snake.body,
        g.advanced(dir).game_over == g.game_over,
{
    lemma_step_keeps_cells_distinct(g.snake, dir);
    assert(g.snake.moved(dir).body[0] == g.snake.next_head(dir));
}

/// A step that does not reach the food leaves it, and the body keeps its length.
pub proof fn lemma_plain_step_keeps_length(g: GameView, dir: Option<Direction>)
    requires
        g.valid(),
        g.alive(dir),
        g.food != Some(g.snake.next_head(dir)),
    ensures
        g.advanced(dir).food == g.food,
        g.advanced(dir).snake == g.snake.moved(dir),
        g.advanced(dir).snake.body.len() == g.snake.body.len(),
{
    assert(g.snake.moved(dir).body[0] == g.snake.next_head(dir));
}

/// A step into the border ring, or beyond it, ends the round and moves nothing.
pub proof fn lemma_wall_ends_round(g: GameView, dir: Option<Direction>)
    requires
        ({
            let next = g.snake.next_head(dir);
            next.0 <= 0 || next.0 >= g.width - 1 || next.1 <= 0 || next.1 >= g.height - 1
        }),
    ensures
        g.advanced(dir) == (GameView { game_over: true, waiting_time: 0, ..g }),
{
}

/// A step into a cell of the snake's own body ends the round and moves nothing.
pub proof fn lemma_self_collision_ends_round(g: GameView, dir: Option<Direction>)
    requires
        g.snake.occupies(g.snake.next_head(dir)),
    ensures
        g.advanced(dir) == (GameView { game_over: true, waiting_time: 0, ..g }),
{
}

/// Food in a valid game lies inside the border, off the border ring, and
/// not under the snake.
pub proof fn lemma_food_off_snake_and_border(g: GameView, c: Cell)
    requires
        g.valid(),
        g.food == Some(c),
    ensures
        !g.snake.occupies(c),
        1 <= c.0 <= g.width - 2,
        1 <= c.1 <= g.height - 2,
{
}

} // verus!
