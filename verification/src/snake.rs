use vstd::prelude::*;

use crate::direction::{spec_opposite, swipe_direction, Direction};
use crate::grid::{cell_in_grid, step, step_cell, Cell};

verus! {

/// The fill style of one painted cell: the head is green, tail segments are
/// light green, the food is red.
#[derive(Clone, Copy, Debug, PartialEq, Eq, Structural)]
pub enum Color {
    Green,
    LightGreen,
    Red,
}

/// One instruction to the renderer: erase the whole surface, or paint one
/// grid cell in a color.
#[derive(Clone, Copy, Debug, PartialEq, Eq, Structural)]
pub enum DrawCmd {
    Clear,
    Paint { at: Cell, color: Color },
}

/// What a call of [`Snake::update`] did.
#[derive(Clone, Copy, Debug, PartialEq, Eq, Structural)]
pub enum Tick {
    /// The snake moved one cell; nothing else happened.
    Moved,
    /// The snake moved onto the food and grew by one segment. The food still
    /// lies under the head until a call of [`Snake::place_food`] is accepted.
    Ate,
    /// The new head cell was already occupied by the body: the whole snake
    /// was replaced by a fresh one on the same board.
    Reset,
}

/// The snake state machine: head, body segments, food, board size, and the
/// two-slot direction queue.
pub struct Snake {
    /// The current head position.
    pub head: Cell,
    /// Body segments ordered from the one nearest the head to the farthest.
    pub tail: Vec<Cell>,
    /// The current food position.
    pub food: Cell,
    /// Board width; fixed for the life of the instance.
    pub width: u32,
    /// Board height; fixed for the life of the instance.
    pub height: u32,
    /// The direction committed for the next tick; `None` means "keep going".
    pub direction: Option<Direction>,
    /// The direction queued behind `direction`, applied one tick later.
    pub next_direction: Option<Direction>,
    /// The direction the last tick actually applied; seeds the first move.
    pub last_direction: Direction,
    /// Horizontal origin of the touch gesture in progress, in pixels.
    pub touch_start_x: i64,
    /// Vertical origin of the touch gesture in progress, in pixels.
    pub touch_start_y: i64,
}

impl Snake {
    /// Every cell the snake occupies: the head first, then the tail in its
    /// stored (nearest-first) order.
    pub open spec fn body(self) -> Seq<Cell> {
        seq![self.head] + self.tail@
    }

    /// Head, food and every tail segment lie on the (nonempty) board.
    pub open spec fn grid_wf(self) -> bool {
        &&& 1 <= self.width
        &&& 1 <= self.height
        &&& cell_in_grid(self.head, self.width, self.height)
        &&& cell_in_grid(self.food, self.width, self.height)
        &&& forall|i: int|
            0 <= i < self.tail@.len() ==> cell_in_grid(
                #[trigger] self.tail@[i],
                self.width,
                self.height,
            )
    }

    /// The queue can never reverse the snake: a pending direction is not
    /// opposite the last applied one, and a queued follow-up only exists
    /// behind a pending direction and is not opposite it.
    pub open spec fn dir_wf(self) -> bool {
        &&& (self.direction matches Some(d) ==> !spec_opposite(d, self.last_direction))
        &&& (self.next_direction matches Some(n) ==> {
            &&& self.direction is Some
            &&& !spec_opposite(self.direction->0, n)
        })
    }

    /// Well-formedness: established by [`Snake::new`], preserved by every
    /// method.
    pub open spec fn wf(self) -> bool {
        self.grid_wf() && self.dir_wf()
    }

    /// The food lies on no cell of the snake.
    pub open spec fn food_free(self) -> bool {
        self.food != self.head && !self.tail@.contains(self.food)
    }

    /// The direction the next tick will actually apply: the pending one if a
    /// request was accepted, else the one applied last.
    pub open spec fn heading(self) -> Direction {
        match self.direction {
            Some(d) => d,
            None => self.last_direction,
        }
    }

    /// The body segments one tick later, before any growth: the head's old
    /// position becomes the nearest segment and the farthest segment is
    /// dropped — unless the tail was empty, in which case there is nothing to
    /// drop yet and the old head position alone remains.
    pub open spec fn shifted(self) -> Seq<Cell> {
        if self.tail@.len() == 0 {
            seq![self.head]
        } else {
            self.body().drop_last()
        }
    }

    /// `self` is a freshly spawned snake: the given spawn cells, an empty
    /// tail, nothing pending, and the default heading Right.
    pub open spec fn is_fresh(self, width: u32, height: u32, head: Cell, food: Cell) -> bool {
        &&& self.head == head
        &&& self.tail@.len() == 0
        &&& self.food == food
        &&& self.width == width
        &&& self.height == height
        &&& self.direction is None
        &&& self.next_direction is None
        &&& self.last_direction == Direction::Right
        &&& self.touch_start_x == 0
        &&& self.touch_start_y == 0
    }

    /// The `direction`/`next_direction` pair after one request `req`: accept
    /// it as pending when nothing is pending and it does not reverse the last
    /// applied direction; queue it when it does not reverse the pending one;
    /// drop it otherwise.
    pub open spec fn queue_after(self, req: Direction) -> (Option<Direction>, Option<Direction>) {
        if self.direction is None && !spec_opposite(self.last_direction, req) {
            (Some(req), self.next_direction)
        } else if self.direction matches Some(d) && !spec_opposite(d, req) {
            (self.direction, Some(req))
        } else {
            (self.direction, self.next_direction)
        }
    }

    /// The whole state after one `change_direction(req)`: only the queue
    /// changes.
    pub open spec fn request_spec(self, req: Direction) -> Snake {
        Snake {
            direction: self.queue_after(req).0,
            next_direction: self.queue_after(req).1,
            ..self
        }
    }

    /// A fresh snake on a `width` by `height` board with the given spawn
    /// cells. The caller draws `head` and `food` at random over the board;
    /// they are allowed to coincide at spawn.
    pub fn new(width: u32, height: u32, head: Cell, food: Cell) -> (s: Snake)
        requires
            1 <= width,
            1 <= height,
            cell_in_grid(head, width, height),
            cell_in_grid(food, width, height),
        ensures
            s.is_fresh(width, height, head, food),
            s.wf(),
    {
        Snake {
            head,
            tail: Vec::new(),
            food,
            width,
            height,
            direction: None,
            next_direction: None,
            last_direction: Direction::Right,
            touch_start_x: 0,
            touch_start_y: 0,
        }
    }

    /// Request a new heading. With nothing pending, a request that does not
    /// reverse the last applied direction is accepted for the next tick; with
    /// one pending, a request that does not reverse it is queued for the tick
    /// after (a later request overwrites the queued slot); a reversal is
    /// silently dropped. The snake can therefore never turn back into itself,
    /// however fast requests arrive.
    pub fn change_direction(&mut self, direction: Direction)
        requires
            old(self).wf(),
        ensures
            final(self).wf(),
            *final(self) == old(self).request_spec(direction),
    {
        if !self.last_direction.opposite(direction) && self.direction.is_none() {
            self.direction = Some(direction);
        } else {
            match self.direction {
                Some(d) => {
                    if !d.opposite(direction) {
                        self.next_direction = Some(direction);
                    }
                },
                None => {},
            }
        }
    }

    /// Record the origin of a touch gesture; nothing else changes.
    pub fn touch_down(&mut self, x: i64, y: i64)
        ensures
            *final(self) == (Snake { touch_start_x: x, touch_start_y: y, ..*old(self) }),
    {
        self.touch_start_x = x;
        self.touch_start_y = y;
    }

    /// Resolve a touch gesture ending at `(x, y)` against the recorded
    /// origin. Coordinates are integer pixels, so the near-zero threshold on
    /// the horizontal delta collapses to `x == touch_start_x`: such a
    /// gesture (a purely vertical swipe included) is ignored. Any other
    /// gesture resolves to the quadrant of its angle — see
    /// [`swipe_direction`] — and is fed through [`Snake::change_direction`].
    pub fn touch_up(&mut self, x: i64, y: i64)
        requires
            old(self).wf(),
        ensures
            final(self).wf(),
            x == old(self).touch_start_x ==> *final(self) == *old(self),
            x != old(self).touch_start_x ==> *final(self) == old(self).request_spec(
                swipe_direction(x - old(self).touch_start_x, y - old(self).touch_start_y),
            ),
    {
        if x == self.touch_start_x {
            return ;
        }
        let requested: Direction = if x > self.touch_start_x {
            if y < self.touch_start_y {
                Direction::Down
            } else {
                Direction::Right
            }
        } else {
            if y > self.touch_start_y {
                Direction::Up
            } else {
                Direction::Left
            }
        };
        self.change_direction(requested);
    }

    /// True iff `c` lies on some cell of `v`.
    fn contains_cell(v: &Vec<Cell>, c: Cell) -> (r: bool)
        ensures
            r == v@.contains(c),
    {
        let mut i: usize = 0;
        while i < v.len()
            invariant
                i <= v@.len(),
                forall|j: int| 0 <= j < i ==> v@[j] != c,
            decreases v@.len() - i,
        {
            if v[i] == c {
                proof {
                    assert(v@.contains(c)) by {
                        assert(v@[i as int] == c);
                    }
                }
                return true;
            }
            i = i + 1;
        }
        false
    }

    /// Advance the simulation by one tick.
    ///
    /// The tick applies the pending direction (or keeps the last one), moves
    /// the head one cell with wrap-around, shifts the body one cell forward
    /// (see [`Snake::shifted`]), and advances the direction queue. If the new
    /// head cell is still occupied by the shifted body, the whole snake is
    /// replaced by a fresh one spawned at `spawn_head`/`spawn_food` (two
    /// cells the caller draws at random) and nothing else happens. If the
    /// snake reaches the food it keeps the segment it would otherwise have
    /// dropped — the tail grows by exactly one; on every other completed
    /// tick the tail never shrinks. After a growth tick the food still lies
    /// under the head: the caller relocates it by offering random cells to
    /// [`Snake::place_food`] until one is accepted.
    pub fn update(&mut self, spawn_head: Cell, spawn_food: Cell) -> (t: Tick)
        requires
            old(self).wf(),
            cell_in_grid(spawn_head, old(self).width, old(self).height),
            cell_in_grid(spawn_food, old(self).width, old(self).height),
        ensures
            final(self).wf(),
            ({
                let pre = *old(self);
                let applied = pre.heading();
                let new_head = step_cell(pre.head, applied, pre.width, pre.height);
                &&& (t == Tick::Reset <==> pre.shifted().contains(new_head))
                &&& (t == Tick::Ate <==> !pre.shifted().contains(new_head) && new_head == pre.food)
                &&& (t == Tick::Reset ==> final(self).is_fresh(
                    pre.width,
                    pre.height,
                    spawn_head,
                    spawn_food,
                ))
                &&& (t != Tick::Reset ==> {
                    &&& final(self).head == new_head
                    &&& final(self).food == pre.food
                    &&& final(self).width == pre.width
                    &&& final(self).height == pre.height
                    &&& final(self).last_direction == applied
                    &&& final(self).direction == pre.next_direction
                    &&& final(self).next_direction is None
                    &&& final(self).touch_start_x == pre.touch_start_x
                    &&& final(self).touch_start_y == pre.touch_start_y
                })
                &&& (t == Tick::Ate ==> final(self).tail@ == pre.body())
                &&& (t == Tick::Moved ==> final(self).tail@ == pre.shifted())
            }),
            t == Tick::Ate ==> final(self).tail@.len() == old(self).tail@.len() + 1,
            t != Tick::Reset ==> final(self).tail@.len() >= old(self).tail@.len(),
            t == Tick::Moved && old(self).food_free() ==> final(self).food_free(),
            t == Tick::Ate ==> final(self).food == final(self).head,
            t == Tick::Reset && spawn_head != spawn_food ==> final(self).food_free(),
    {
        let applied = match self.direction {
            Some(d) => d,
            None => self.last_direction,
        };
        self.last_direction = applied;
        let new_head = step(self.head, applied, self.width, self.height);

        let dropped: Option<Cell> = if self.tail.len() == 0 {
            None
        } else {
            Some(self.tail[self.tail.len() - 1])
        };
        self.tail.insert(0, self.head);
        if dropped.is_some() {
            let _ = self.tail.pop();
        }
        proof {
            assert(self.tail@ =~= old(self).shifted());
        }

        if Self::contains_cell(&self.tail, new_head) {
            let fresh = Snake::new(self.width, self.height, spawn_head, spawn_food);
            *self = fresh;
            return Tick::Reset;
        }

        self.head = new_head;

        let ate = self.head == self.food;
        if ate {
            if let Some(seg) = dropped {
                self.tail.push(seg);
            }
            proof {
                assert(self.tail@ =~= old(self).body());
            }
        }
        self.direction = self.next_direction;
        self.next_direction = None;
        if ate {
            Tick::Ate
        } else {
            Tick::Moved
        }
    }

    /// Offer a candidate cell (drawn at random by the caller) for the food.
    /// It is accepted — and becomes the food — exactly when it lies on no
    /// cell of the snake; otherwise nothing changes and the caller draws
    /// again. This is the rejection step of the food relocation that follows
    /// a growth tick.
    pub fn place_food(&mut self, candidate: Cell) -> (accepted: bool)
        requires
            old(self).wf(),
            cell_in_grid(candidate, old(self).width, old(self).height),
        ensures
            final(self).wf(),
            accepted == (candidate != old(self).head && !old(self).tail@.contains(candidate)),
            accepted ==> *final(self) == (Snake { food: candidate, ..*old(self) }),
            !accepted ==> *final(self) == *old(self),
            accepted ==> final(self).food_free(),
    {
        if candidate == self.head {
            return false;
        }
        if Self::contains_cell(&self.tail, candidate) {
            return false;
        }
        self.food = candidate;
        true
    }

    /// The render commands for the current state, in paint order: clear the
    /// surface, then the head in green, each tail segment nearest-first in
    /// light green, and last the food in red (a later command overpaints an
    /// earlier one on the same cell).
    pub fn draw(&self) -> (cmds: Vec<DrawCmd>)
        ensures
            cmds@.len() == self.tail@.len() + 3,
            cmds@[0] == DrawCmd::Clear,
            cmds@[1] == (DrawCmd::Paint { at: self.head, color: Color::Green }),
            forall|i: int|
                0 <= i < self.tail@.len() ==> cmds@[2 + i] == (DrawCmd::Paint {
                    at: #[trigger] self.tail@[i],
                    color: Color::LightGreen,
                }),
            cmds@[cmds@.len() - 1] == (DrawCmd::Paint { at: self.food, color: Color::Red }),
    {
        let mut cmds: Vec<DrawCmd> = Vec::new();
        cmds.push(DrawCmd::Clear);
        cmds.push(DrawCmd::Paint { at: self.head, color: Color::Green });
        let mut i: usize = 0;
        while i < self.tail.len()
            invariant
                i <= self.tail@.len(),
                cmds@.len() == i + 2,
                cmds@[0] == DrawCmd::Clear,
                cmds@[1] == (DrawCmd::Paint { at: self.head, color: Color::Green }),
                forall|j: int|
                    0 <= j < i ==> cmds@[2 + j] == (DrawCmd::Paint {
                        at: #[trigger] self.tail@[j],
                        color: Color::LightGreen,
                    }),
            decreases self.tail@.len() - i,
        {
            cmds.push(DrawCmd::Paint { at: self.tail[i], color: Color::LightGreen });
            i = i + 1;
        }
        cmds.push(DrawCmd::Paint { at: self.food, color: Color::Red });
        cmds
    }
}

/// No-reversal law: in any well-formed state, the direction the next tick
/// will apply is never the opposite of the one the previous tick applied.
/// Since every method keeps [`Snake::wf`], this holds along every sequence of
/// `change_direction`, touch and `update` calls.
pub proof fn lemma_no_reversal(s: Snake)
    requires
        s.dir_wf(),
    ensures
        !spec_opposite(s.heading(), s.last_direction),
{
}

/// Queue-depth law: of three direction requests issued between two ticks
/// (from a state with nothing pending or queued), at most two survive. The
/// first request that does not reverse the last applied direction becomes
/// pending; of the later requests, the last one that does not reverse the
/// pending direction occupies the queued slot (a later writer overwrites an
/// earlier one); everything else is dropped.
pub proof fn lemma_queue_depth(s: Snake, a: Direction, b: Direction, c: Direction)
    requires
        s.dir_wf(),
        s.direction is None,
        s.next_direction is None,
    ensures
        ({
            let s3 = s.request_spec(a).request_spec(b).request_spec(c);
            &&& (!spec_opposite(s.last_direction, a) ==> {
                &&& s3.direction == Some(a)
                &&& s3.next_direction == (if !spec_opposite(a, c) {
                    Some(c)
                } else if !spec_opposite(a, b) {
                    Some(b)
                } else {
                    None::<Direction>
                })
            })
            &&& (spec_opposite(s.last_direction, a) && !spec_opposite(s.last_direction, b) ==> {
                &&& s3.direction == Some(b)
                &&& s3.next_direction == (if !spec_opposite(b, c) {
                    Some(c)
                } else {
                    None::<Direction>
                })
            })
            &&& (spec_opposite(s.last_direction, a) && spec_opposite(s.last_direction, b) ==> {
                &&& s3.direction == (if !spec_opposite(s.last_direction, c) {
                    Some(c)
                } else {
                    None::<Direction>
                })
                &&& s3.next_direction is None
            })
        }),
{
}

} // verus!
