//! The segment store: the snake as an ordered list of segments, head first.

use crate::grid::Position;
use vstd::prelude::*;

verus! {

/// One segment of the snake: a handle that never changes, and the cell the
/// segment is on.
#[derive(Clone, Copy, Debug, PartialEq, Eq, Structural)]
pub struct Segment {
    pub id: u64,
    pub position: Position,
}

/// The cells of the segments, head first.
pub open spec fn positions_of(segments: Seq<Segment>) -> Seq<Position> {
    Seq::new(segments.len(), |i: int| segments[i].position)
}

/// The handles of the segments, head first.
pub open spec fn ids_of(segments: Seq<Segment>) -> Seq<u64> {
    Seq::new(segments.len(), |i: int| segments[i].id)
}

/// Whether one of the segments behind the head is on `cell`.
pub open spec fn body_occupies(segments: Seq<Segment>, cell: Position) -> bool {
    exists|j: int| 1 <= j < segments.len() && #[trigger] segments[j].position == cell
}

/// The segments after one step that takes the head to `new_head`: every
/// segment keeps its handle, and each one behind the head takes the cell that
/// the one before it was on.
pub open spec fn shifted(segments: Seq<Segment>, new_head: Position) -> Seq<Segment> {
    Seq::new(
        segments.len(),
        |i: int|
            Segment {
                id: segments[i].id,
                position: if i == 0 {
                    new_head
                } else {
                    segments[i - 1].position
                },
            },
    )
}

/// The handle of each segment is its place in the order in which the
/// segments were made. So no handle occurs twice.
pub open spec fn handles_in_order(segments: Seq<Segment>) -> bool {
    &&& segments.len() <= u64::MAX
    &&& forall|i: int| 0 <= i < segments.len() ==> (#[trigger] segments[i]).id == i
}

/// A snake has a head and at least one more segment, each with a handle of
/// its own.
pub open spec fn is_snake(segments: Seq<Segment>) -> bool {
    segments.len() >= 2 && handles_in_order(segments)
}

/// The cell the head starts on.
pub open spec fn start_head() -> Position {
    Position { x: 3, y: 3 }
}

/// The cell the first body segment starts on.
pub open spec fn start_body() -> Position {
    Position { x: 3, y: 2 }
}

/// The snake a session starts with.
pub open spec fn start_segments() -> Seq<Segment> {
    seq![Segment { id: 0, position: start_head() }, Segment { id: 1, position: start_body() }]
}

/// The ordered list of segments. Segment 0 is the head.
pub struct SnakeBody {
    segments: Vec<Segment>,
}

impl SnakeBody {
    pub closed spec fn view(&self) -> Seq<Segment> {
        self.segments@
    }

    pub open spec fn wf(&self) -> bool {
        is_snake(self@)
    }

    /// The snake of two segments that every session starts with.
    pub fn spawn_snake() -> (body: SnakeBody)
        ensures
            body.wf(),
            body@ == start_segments(),
    {
        let mut segments: Vec<Segment> = Vec::new();
        segments.push(Segment { id: 0, position: Position { x: 3, y: 3 } });
        let mut body = SnakeBody { segments };
        proof {
            assert(body@ =~= seq![Segment { id: 0, position: start_head() }]);
        }
        body.spawn_snake_part(Position { x: 3, y: 2 });
        proof {
            assert(body@ =~= start_segments());
        }
        body
    }

    /// Appends a segment on `position` at the tail end and returns its
    /// handle, which no other segment has.
    pub fn spawn_snake_part(&mut self, position: Position) -> (id: u64)
        requires
            old(self)@.len() >= 1,
            handles_in_order(old(self)@),
        ensures
            id == old(self)@.len(),
            final(self)@ == old(self)@.push(Segment { id, position }),
            final(self).wf(),
    {
        let id: u64 = self.segments.len() as u64;
        self.segments.push(Segment { id, position });
        assert(self.segments@.len() == self.segments.len() <= usize::MAX);
        id
    }

    pub fn len(&self) -> (n: usize)
        ensures
            n == self@.len(),
    {
        self.segments.len()
    }

    pub fn segment(&self, i: usize) -> (segment: Segment)
        requires
            i < self@.len(),
        ensures
            segment == self@[i as int],
    {
        self.segments[i]
    }

    pub fn head_position(&self) -> (p: Position)
        requires
            self@.len() >= 1,
        ensures
            p == self@[0].position,
    {
        self.segments[0].position
    }

    /// The cells of all segments as they are now, head first.
    pub fn positions(&self) -> (cells: Vec<Position>)
        ensures
            cells@ == positions_of(self@),
    {
        let mut cells: Vec<Position> = Vec::new();
        let n: usize = self.segments.len();
        let mut i: usize = 0;
        while i < n
            invariant
                n == self.segments@.len(),
                i <= n,
                cells@.len() == i,
                forall|k: int| 0 <= k < i ==> cells@[k] == self.segments@[k].position,
            decreases n - i,
        {
            cells.push(self.segments[i].position);
            i = i + 1;
        }
        proof {
            assert(cells@ =~= positions_of(self@));
        }
        cells
    }

    /// The handles of all segments, head first.
    pub fn ids(&self) -> (handles: Vec<u64>)
        ensures
            handles@ == ids_of(self@),
    {
        let mut handles: Vec<u64> = Vec::new();
        let n: usize = self.segments.len();
        let mut i: usize = 0;
        while i < n
            invariant
                n == self.segments@.len(),
                i <= n,
                handles@.len() == i,
                forall|k: int| 0 <= k < i ==> handles@[k] == self.segments@[k].id,
            decreases n - i,
        {
            handles.push(self.segments[i].id);
            i = i + 1;
        }
        proof {
            assert(handles@ =~= ids_of(self@));
        }
        handles
    }

    /// Whether a segment behind the head is on `cell`.
    pub fn hits_body(&self, cell: Position) -> (hit: bool)
        ensures
            hit == body_occupies(self@, cell),
    {
        let n: usize = self.segments.len();
        let mut j: usize = 1;
        while j < n
            invariant
                n == self.segments@.len(),
                1 <= j,
                forall|k: int| 1 <= k < j && k < n ==> self.segments@[k].position != cell,
            decreases n - j,
        {
            if self.segments[j].position == cell {
                return true;
            }
            j = j + 1;
        }
        false
    }

    /// Moves the snake one step: the head goes to `new_head` and every other
    /// segment to the cell that the one before it held before the step.
    /// Returns the cell that the tail has left.
    pub fn advance(&mut self, new_head: Position) -> (left_behind: Position)
        requires
            old(self).wf(),
        ensures
            final(self)@ == shifted(old(self)@, new_head),
            left_behind == old(self)@.last().position,
            final(self).wf(),
    {
        let prev: Vec<Position> = self.positions();
        let n: usize = self.segments.len();
        let id: u64 = self.segments[0].id;
        self.segments.set(0, Segment { id, position: new_head });
        let mut i: usize = 1;
        while i < n
            invariant
                n == prev@.len(),
                n == self.segments@.len(),
                n == old(self)@.len(),
                1 <= i <= n,
                prev@ == positions_of(old(self)@),
                forall|k: int| 0 <= k < i ==> self.segments@[k] == shifted(old(self)@, new_head)[k],
                forall|k: int| i <= k < n ==> self.segments@[k] == old(self)@[k],
            decreases n - i,
        {
            let id: u64 = self.segments[i].id;
            self.segments.set(i, Segment { id, position: prev[i - 1] });
            i = i + 1;
        }
        proof {
            assert(self@ =~= shifted(old(self)@, new_head));
        }
        prev[n - 1]
    }
}

} // verus!
