//! The snake: an ordered run of cells, head first, and the heading it moves in.

use crate::direction::Direction;
use crate::food::{free_cells, unoccupied};
use crate::grid::{grid_cells, grid_size, BodyPart, GRID_COLUMNS, GRID_ROWS};
use std::collections::VecDeque;
use vstd::prelude::*;

verus! {

/// The body a new snake starts with: two cells in the top left corner.
pub open spec fn initial_body() -> Seq<BodyPart> {
    seq![BodyPart { x: 0, y: 0 }, BodyPart { x: 0, y: 1 }]
}

/// The body after one move: a new head one step from the old one, the last cell gone.
pub open spec fn advanced(body: Seq<BodyPart>, dir: Direction) -> Seq<BodyPart>
    recommends
        body.len() > 0,
{
    seq![body[0].neighbor(dir)] + body.drop_last()
}

/// The body after growing: one more cell, to the right of the old last one.
pub open spec fn grown(body: Seq<BodyPart>) -> Seq<BodyPart>
    recommends
        body.len() > 0,
{
    body.push(body.last().neighbor(Direction::Right))
}

/// The head sits on a cell that another segment of the body occupies.
pub open spec fn hits_itself(body: Seq<BodyPart>) -> bool {
    exists|i: int| 1 <= i < body.len() && #[trigger] body[i] == body[0]
}

/// One change to a body: a step in a heading, or growth by a cell.
pub enum Move {
    Advance(Direction),
    Grow,
}

/// The body after the changes `moves`, made one after the other.
pub open spec fn replay(body: Seq<BodyPart>, moves: Seq<Move>) -> Seq<BodyPart>
    decreases moves.len(),
{
    if moves.len() == 0 {
        body
    } else {
        let before = replay(body, moves.drop_last());
        match moves.last() {
            Move::Advance(dir) => advanced(before, dir),
            Move::Grow => grown(before),
        }
    }
}

/// However a snake moves and grows, its body never gets shorter: one that
/// starts with two cells or more always has two cells or more.
pub proof fn lemma_body_never_shrinks(body: Seq<BodyPart>, moves: Seq<Move>)
    requires
        body.len() >= 2,
    ensures
        replay(body, moves).len() >= body.len(),
        replay(body, moves).len() >= 2,
    decreases moves.len(),
{
    if moves.len() > 0 {
        lemma_body_never_shrinks(body, moves.drop_last());
    }
}

/// Growing and then moving puts the new head in front of the whole old body:
/// the cell that growth added is the one that the move drops.
pub proof fn lemma_grow_then_advance(body: Seq<BodyPart>, dir: Direction)
    requires
        body.len() > 0,
    ensures
        advanced(grown(body), dir) == seq![body[0].neighbor(dir)] + body,
{
}

/// The snake. `body[0]` is the head, the last element the tail.
#[derive(Debug)]
pub struct Snake {
    pub body: VecDeque<BodyPart>,
    pub dir: Direction,
}

impl Clone for Snake {
    fn clone(&self) -> (copy: Snake)
        ensures
            copy.body@ == self.body@,
            copy.dir == self.dir,
    {
        let body = self.body.clone();
        Snake { body, dir: self.dir }
    }
}

impl Snake {
    /// A snake of two cells in the top left corner, heading right.
    pub fn init() -> (s: Snake)
        ensures
            s.body@ == initial_body(),
            s.dir == Direction::Right,
    {
        let mut body: VecDeque<BodyPart> = VecDeque::new();
        body.push_back(BodyPart { x: 0, y: 0 });
        body.push_back(BodyPart { x: 0, y: 1 });
        Snake { body, dir: Direction::Right }
    }

    /// Moves the snake one step in its heading: a new head is put in front and
    /// the tail cell is dropped, so the length stays.
    pub fn update_direction(&mut self)
        requires
            old(self).body@.len() > 0,
            old(self).body@[0].can_step(old(self).dir),
        ensures
            final(self).body@ == advanced(old(self).body@, old(self).dir),
            final(self).body@.len() == old(self).body@.len(),
            final(self).dir == old(self).dir,
    {
        let new_head = self.body[0].step(self.dir);
        self.body.push_front(new_head);
        let _ = self.body.pop_back();
    }

    /// Lengthens the snake by one cell, put to the right of the tail.
    pub fn grow(&mut self)
        requires
            old(self).body@.len() > 0,
            old(self).body@.last().can_step(Direction::Right),
        ensures
            final(self).body@ == grown(old(self).body@),
            final(self).body@.len() == old(self).body@.len() + 1,
            final(self).dir == old(self).dir,
    {
        let tail = self.body[self.body.len() - 1];
        let new_tail = tail.step(Direction::Right);
        self.body.push_back(new_tail);
    }

    /// Whether the head is on the cell of `food`.
    pub fn check_eat(&self, food: &BodyPart) -> (r: bool)
        requires
            self.body@.len() > 0,
        ensures
            r == (self.body@[0] == *food),
    {
        let head = self.body[0];
        head.x == food.x && head.y == food.y
    }

    /// Whether the head is on a cell that another segment of the body occupies.
    pub fn collision(&self) -> (r: bool)
        requires
            self.body@.len() > 0,
        ensures
            r == hits_itself(self.body@),
    {
        let head = self.body[0];
        let mut i: usize = 1;
        while i < self.body.len()
            invariant
                1 <= i,
                self.body@.len() > 0,
                head == self.body@[0],
                forall|j: int| 1 <= j < i && j < self.body@.len() ==> self.body@[j] != head,
            decreases self.body@.len() - i,
        {
            let p = self.body[i];
            if p.x == head.x && p.y == head.y {
                return true;
            }
            i += 1;
        }
        false
    }

    /// Whether the head has left the playing field.
    pub fn out_of_bounds(&self) -> (r: bool)
        requires
            self.body@.len() > 0,
        ensures
            r == !self.body@[0].in_grid(),
    {
        let head = self.body[0];
        head.x < 0 || head.x > GRID_COLUMNS - 1 || head.y < 0 || head.y > GRID_ROWS - 1
    }

    /// The cells of the playing field on which no segment of the body lies,
    /// column by column, each from the top.
    pub fn free_space(&self) -> (free: Vec<BodyPart>)
        ensures
            free@ == free_cells(self.body@),
    {
        let ghost pred = unoccupied(self.body@);
        let mut free: Vec<BodyPart> = Vec::new();
        assert(grid_cells().take(0).filter(pred) =~= Seq::<BodyPart>::empty()) by {
            reveal(Seq::filter);
        }
        for x in 0..GRID_COLUMNS
            invariant
                pred == unoccupied(self.body@),
                free@ == grid_cells().take(x * GRID_ROWS).filter(pred),
        {
            for y in 0..GRID_ROWS
                invariant
                    0 <= x < GRID_COLUMNS,
                    pred == unoccupied(self.body@),
                    free@ == grid_cells().take(x * GRID_ROWS + y).filter(pred),
            {
                let cell = BodyPart { x, y };
                proof {
                    let k = x * GRID_ROWS + y;
                    assert(grid_cells().take(k + 1) =~= grid_cells().take(k).push(cell));
                    grid_cells().take(k).lemma_filter_push(cell, pred);
                }
                if !self.occupies(cell) {
                    free.push(cell);
                }
            }
        }
        assert(grid_cells().take(grid_size() as int) =~= grid_cells());
        free
    }

    /// Whether some segment of the body is on `cell`.
    pub fn occupies(&self, cell: BodyPart) -> (r: bool)
        ensures
            r == self.body@.contains(cell),
    {
        let mut i: usize = 0;
        while i < self.body.len()
            invariant
                forall|j: int| 0 <= j < i && j < self.body@.len() ==> self.body@[j] != cell,
            decreases self.body@.len() - i,
        {
            let p = self.body[i];
            if p.x == cell.x && p.y == cell.y {
                return true;
            }
            i += 1;
        }
        false
    }
}

} // verus!
