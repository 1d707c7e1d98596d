//! The game: a snake, the food, and the rules that ticks and key presses follow.

use crate::direction::Direction;
use crate::food::{drawn_cell, is_free, lemma_free_cells_exact};
use crate::grid::{BodyPart, GRID_COLUMNS, GRID_ROWS};
use crate::random::gen_range;
use crate::snake::{advanced, grown, hits_itself, initial_body, Snake};
use vstd::prelude::*;

verus! {

/// Why a request could not be carried out.
#[derive(Clone, Copy, Debug, PartialEq, Eq, Structural)]
pub enum LogicError {
    /// The snake leaves no cell of the playing field free, so the food has
    /// nowhere to go. This is a fatal error, not a win: the request that met
    /// it changes nothing, and made again it meets the same error.
    GridFull,
}

/// The keys that the game tells apart.
#[derive(Clone, Copy, Debug, PartialEq, Eq, Structural)]
pub enum Key {
    /// The up arrow.
    Up,
    /// The down arrow.
    Down,
    /// The left arrow.
    Left,
    /// The right arrow.
    Right,
    /// The space bar.
    Space,
    /// Any other key.
    Other,
}

impl Key {
    /// The heading that an arrow key asks for; no other key asks for one.
    pub open spec fn heading(self) -> Option<Direction> {
        match self {
            Key::Up => Some(Direction::Up),
            Key::Down => Some(Direction::Down),
            Key::Left => Some(Direction::Left),
            Key::Right => Some(Direction::Right),
            _ => None,
        }
    }
}

/// The heading after a request for `requested` while heading `current`: a
/// request for the reverse of the current heading is ignored, any other is
/// followed.
pub open spec fn turned(current: Direction, requested: Direction) -> Direction {
    if requested == current.reversed() {
        current
    } else {
        requested
    }
}

/// No request makes the snake reverse: the heading after it is the one asked
/// for or the one before, and never the reverse of the one before.
pub proof fn lemma_never_reverses(current: Direction, requested: Direction)
    ensures
        turned(current, requested) != current.reversed(),
        turned(current, requested) == requested || turned(current, requested) == current,
        requested != current.reversed() ==> turned(current, requested) == requested,
{
}

/// The cell in the middle of the playing field, where the first food lies.
pub open spec fn center() -> BodyPart {
    BodyPart { x: (GRID_COLUMNS / 2) as i32, y: (GRID_ROWS / 2) as i32 }
}

/// What a game holds, as plain values.
pub struct GameState {
    /// The cells of the snake, head first.
    pub body: Seq<BodyPart>,
    /// The heading in which the next tick moves the snake.
    pub dir: Direction,
    /// The cell on which the food lies.
    pub food: BodyPart,
}

impl GameState {
    /// What every game keeps true: the snake has a head and a tail, every cell
    /// behind the head lies on the playing field, and so does the food.
    pub open spec fn valid(self) -> bool {
        &&& self.body.len() >= 2
        &&& forall|i: int| 1 <= i < self.body.len() ==> (#[trigger] self.body[i]).in_grid()
        &&& self.food.in_grid()
    }

    /// The game is over: the head ran into the body or left the playing field.
    pub open spec fn ended(self) -> bool {
        hits_itself(self.body) || !self.body[0].in_grid()
    }

    /// The game is running and the head is on the food.
    pub open spec fn feeding(self) -> bool {
        !self.ended() && self.body[0] == self.food
    }

    /// The state at the start of a game, with the food on `food`.
    pub open spec fn fresh(food: BodyPart) -> GameState {
        GameState { body: initial_body(), dir: Direction::Right, food }
    }

    /// The state one tick later, where `placed` is the cell that the food
    /// moves to if the snake eats during the tick.
    pub open spec fn tick(self, placed: BodyPart) -> GameState {
        if self.ended() {
            self
        } else if self.feeding() {
            GameState { body: advanced(grown(self.body), self.dir), dir: self.dir, food: placed }
        } else {
            GameState { body: advanced(self.body, self.dir), dir: self.dir, food: self.food }
        }
    }

    /// The state after a request for the heading `requested`.
    pub open spec fn steer(self, requested: Direction) -> GameState {
        GameState { body: self.body, dir: turned(self.dir, requested), food: self.food }
    }

    /// The state after a press of `key`, where `placed` is the cell that the
    /// food moves to if the press starts a new game.
    pub open spec fn press(self, key: Key, placed: BodyPart) -> GameState {
        if key == Key::Space {
            if self.ended() {
                GameState::fresh(placed)
            } else {
                self
            }
        } else {
            match key.heading() {
                Some(requested) => self.steer(requested),
                None => self,
            }
        }
    }
}

/// A tick keeps a valid state valid, wherever on the playing field the food
/// is placed, and lengthens the snake by one cell exactly if it eats.
pub proof fn lemma_tick_keeps_valid(s: GameState, placed: BodyPart)
    requires
        s.valid(),
        s.feeding() ==> placed.in_grid(),
    ensures
        s.tick(placed).valid(),
        s.tick(placed).body.len() == s.body.len() + if s.feeding() {
            1int
        } else {
            0int
        },
{
}

/// A game that is over stays as it is and stays over, whatever ticks and key
/// presses follow, until the space bar is pressed; that press starts a game
/// that is not over.
pub proof fn lemma_over_until_restart(s: GameState, key: Key, placed: BodyPart)
    requires
        s.ended(),
    ensures
        s.tick(placed) == s,
        key != Key::Space ==> s.press(key, placed).body == s.body && s.press(key, placed).food
            == s.food && s.press(key, placed).ended(),
        !s.press(Key::Space, placed).ended(),
{
}

/// A key press keeps a valid state valid, wherever on the playing field the
/// food is placed.
pub proof fn lemma_press_keeps_valid(s: GameState, key: Key, placed: BodyPart)
    requires
        s.valid(),
        placed.in_grid(),
    ensures
        s.press(key, placed).valid(),
{
}

/// A game of snake. A value of this type is always `valid`.
pub struct Game {
    snake: Snake,
    food: BodyPart,
}

impl View for Game {
    type V = GameState;

    closed spec fn view(&self) -> GameState {
        GameState { body: self.snake.body@, dir: self.snake.dir, food: self.food }
    }
}

impl Game {
    /// Every game is valid, at every moment.
    #[verifier::type_invariant]
    spec fn inv(self) -> bool {
        self@.valid()
    }

    /// A new game: the snake in the top left corner, heading right, and the
    /// food in the middle of the playing field.
    pub fn new() -> (game: Game)
        ensures
            game@ == GameState::fresh(center()),
            game@.valid(),
            !game@.ended(),
    {
        let snake = Snake::init();
        let food = BodyPart { x: GRID_COLUMNS / 2, y: GRID_ROWS / 2 };
        Game { snake, food }
    }

    /// A game with the given snake and food, if they make a valid one.
    pub fn from_parts(snake: Snake, food: BodyPart) -> (game: Option<Game>)
        ensures
            game is Some <==> (GameState { body: snake.body@, dir: snake.dir, food }).valid(),
            game matches Some(g) ==> g@ == (GameState { body: snake.body@, dir: snake.dir, food }),
    {
        if snake.body.len() < 2 || !food.is_in_grid() {
            return None;
        }
        let mut i: usize = 1;
        while i < snake.body.len()
            invariant
                1 <= i <= snake.body@.len(),
                forall|j: int| 1 <= j < i ==> (#[trigger] snake.body@[j]).in_grid(),
            decreases snake.body@.len() - i,
        {
            if !snake.body[i].is_in_grid() {
                return None;
            }
            i += 1;
        }
        Some(Game { snake, food })
    }

    /// The snake.
    pub fn snake(&self) -> (snake: &Snake)
        ensures
            snake.body@ == self@.body,
            snake.dir == self@.dir,
            snake.body@.len() >= 2,
            self@.valid(),
    {
        proof {
            use_type_invariant(self);
        }
        &self.snake
    }

    /// The cell on which the food lies.
    pub fn food(&self) -> (food: BodyPart)
        ensures
            food == self@.food,
            food.in_grid(),
    {
        proof {
            use_type_invariant(self);
        }
        self.food
    }

    /// Whether the game is over: the head ran into the body or left the playing field.
    pub fn is_end(&self) -> (r: bool)
        ensures
            r == self@.ended(),
    {
        proof {
            use_type_invariant(self);
        }
        self.snake.collision() || self.snake.out_of_bounds()
    }

    /// Moves the food to a cell of the playing field that the snake does not
    /// occupy, drawn at random among all of them. Where the snake leaves no
    /// cell free, nothing changes and the answer is `GridFull`.
    pub fn place_food(&mut self) -> (r: Result<(), LogicError>)
        ensures
            final(self)@.valid(),
            final(self)@.body == old(self)@.body,
            final(self)@.dir == old(self)@.dir,
            match r {
                Ok(()) => is_free(old(self)@.body, final(self)@.food),
                Err(e) => e == LogicError::GridFull && final(self)@.food == old(self)@.food,
            },
            r is Ok <==> exists|c: BodyPart| is_free(old(self)@.body, c),
            r is Ok ==> !final(self)@.body.contains(final(self)@.food),
    {
        proof {
            use_type_invariant(&*self);
        }
        match pick_food(&self.snake) {
            Ok(food) => {
                self.food = food;
                Ok(())
            },
            Err(e) => Err(e),
        }
    }

    /// One tick. Nothing happens once the game is over. Otherwise the snake,
    /// if its head is on the food, grows and the food is placed anew with the
    /// grown snake in the way; then the snake moves one step. If the food
    /// cannot be placed, nothing changes and the answer is `GridFull`.
    pub fn update(&mut self) -> (r: Result<(), LogicError>)
        ensures
            final(self)@.valid(),
            match r {
                Ok(()) => final(self)@ == old(self)@.tick(final(self)@.food) && (old(
                    self,
                )@.feeding() ==> is_free(grown(old(self)@.body), final(self)@.food)),
                Err(e) => e == LogicError::GridFull && final(self)@ == old(self)@,
            },
            r is Err <==> old(self)@.feeding() && forall|c: BodyPart|
                !is_free(grown(old(self)@.body), c),
    {
        proof {
            use_type_invariant(&*self);
        }
        if !self.is_end() {
            // The tick is made on a copy of the snake, so that the game
            // changes only once the food has found its place.
            let mut snake = self.snake.clone();
            if snake.check_eat(&self.food) {
                snake.grow();
                match pick_food(&snake) {
                    Ok(food) => {
                        self.food = food;
                    },
                    Err(e) => {
                        return Err(e);
                    },
                }
            }
            snake.update_direction();
            self.snake = snake;
        }
        Ok(())
    }

    /// Starts a new game: the snake as at the start, the food on a free cell
    /// drawn at random.
    pub fn restart(&mut self)
        ensures
            final(self)@ == GameState::fresh(final(self)@.food),
            is_free(initial_body(), final(self)@.food),
            final(self)@.valid(),
            !final(self)@.ended(),
    {
        proof {
            use_type_invariant(&*self);
        }
        self.snake = Snake::init();
        // The cell to the right of the head is free, so the food finds a place.
        proof {
            assert(is_free(initial_body(), BodyPart { x: 1, y: 0 }));
        }
        let placed = self.place_food();
        assert(placed is Ok);
    }

    /// Asks for a new heading. A request for the reverse of the current
    /// heading is ignored; any other heading is taken at once, and the next
    /// tick moves in it.
    pub fn request_direction(&mut self, requested: Direction)
        ensures
            final(self)@ == old(self)@.steer(requested),
            final(self)@.valid(),
    {
        proof {
            use_type_invariant(&*self);
        }
        if requested != self.snake.dir.opposite() {
            self.snake.dir = requested;
        }
    }

    /// Asks for a new game. The request is followed only once the game is over.
    pub fn request_restart(&mut self)
        ensures
            final(self)@ == old(self)@.press(Key::Space, final(self)@.food),
            old(self)@.ended() ==> is_free(initial_body(), final(self)@.food),
            final(self)@.valid(),
    {
        proof {
            use_type_invariant(&*self);
        }
        if self.is_end() {
            self.restart();
        }
    }

    /// A key was pressed. An arrow key asks for its heading, the space bar
    /// for a new game; any other key is ignored.
    pub fn pressed(&mut self, key: Key)
        ensures
            final(self)@ == old(self)@.press(key, final(self)@.food),
            key == Key::Space && old(self)@.ended() ==> is_free(initial_body(), final(self)@.food),
            final(self)@.valid(),
    {
        proof {
            use_type_invariant(&*self);
        }
        match key {
            Key::Up => self.request_direction(Direction::Up),
            Key::Down => self.request_direction(Direction::Down),
            Key::Left => self.request_direction(Direction::Left),
            Key::Right => self.request_direction(Direction::Right),
            Key::Space => self.request_restart(),
            Key::Other => {},
        }
    }
}

/// A free cell for the food with `snake` on the playing field, drawn at random
/// among all free cells, or `GridFull` if there is none.
fn pick_food(snake: &Snake) -> (r: Result<BodyPart, LogicError>)
    ensures
        match r {
            Ok(food) => is_free(snake.body@, food),
            Err(e) => e == LogicError::GridFull && forall|c: BodyPart| !is_free(snake.body@, c),
        },
{
    let free = snake.free_space();
    if free.len() == 0 {
        assert forall|c: BodyPart| !is_free(snake.body@, c) by {
            lemma_free_cells_exact(snake.body@, c);
        }
        return Err(LogicError::GridFull);
    }
    let mut rng = rand::thread_rng();
    let pos = gen_range(&mut rng, 0, free.len());
    let food = drawn_cell(&free, pos);
    proof {
        lemma_free_cells_exact(snake.body@, food);
    }
    Ok(food)
}

} // verus!
