//! What holds of the game whatever is played: statements over the
//! mathematical state of a session, each one proved.

use crate::game::GameView;
use crate::grid::{Direction, Grid, Position};
use crate::input::{resolved, PressedKeys};
use crate::snake::{ids_of, is_snake, Segment};
use crate::status::GameStatus;
use vstd::prelude::*;

verus! {

/// One operation on a session.
pub enum Step {
    Input(PressedKeys),
    Movement,
    Eating,
    Growth,
    MovementTick,
    StatusUpdate,
    Spawn(Position),
    StatusTick(Position),
}

/// The state after one operation.
pub open spec fn step(s: GameView, op: Step) -> GameView {
    match op {
        Step::Input(keys) => s.after_input(keys),
        Step::Movement => s.after_movement(),
        Step::Eating => s.after_eating(),
        Step::Growth => s.after_growth(),
        Step::MovementTick => s.after_movement_tick(),
        Step::StatusUpdate => s.after_status_update(),
        Step::Spawn(cell) => s.after_spawn(cell),
        Step::StatusTick(cell) => s.after_status_tick(cell),
    }
}

/// The state after a run of operations, the first of `ops` first.
pub open spec fn run(s: GameView, ops: Seq<Step>) -> GameView
    decreases ops.len(),
{
    if ops.len() == 0 {
        s
    } else {
        run(step(s, ops[0]), ops.drop_first())
    }
}

/// Whether the operation makes the snake grow in this state.
pub open spec fn grows(s: GameView, op: Step) -> bool {
    match op {
        Step::Growth => s.in_progress(),
        Step::MovementTick => s.after_movement().eats(),
        _ => false,
    }
}

/// Whether the operation may be run in this state: growth needs a meal
/// that is not yet counted, a spawn needs a cell of the grid and room in the
/// counters.
pub open spec fn permitted(s: GameView, op: Step) -> bool {
    match op {
        Step::Growth => s.can_grow(),
        Step::Spawn(cell) => s.config.grid.contains(cell) && s.can_spawn(),
        Step::StatusTick(cell) => s.config.grid.contains(cell),
        _ => true,
    }
}

/// Every operation keeps a session well formed: the snake has its head and
/// at least one more segment, no handle occurs twice, every segment and the
/// food lie in the grid, and live food is always counted in the backlog.
/// (The number of segments is taken to fit the machine.)
pub proof fn lemma_invariant_is_kept(s: GameView, op: Step)
    requires
        s.wf(),
        permitted(s, op),
        s.segments.len() < u64::MAX,
    ensures
        step(s, op).wf(),
{
    lemma_wrap_around(s.config.grid, s.head_position());
}

/// At the edges of the grid a step lands on the far edge of the same axis,
/// in each of the four headings; anywhere else it lands one cell further.
/// The other coordinate stays.
pub proof fn lemma_wrap_around(grid: Grid, p: Position)
    requires
        grid.wf(),
        grid.contains(p),
    ensures
        grid.neighbor_spec(p, Direction::Left) == (Position {
            x: if p.x == 0 { (grid.width - 1) as i32 } else { (p.x - 1) as i32 },
            y: p.y,
        }),
        grid.neighbor_spec(p, Direction::Right) == (Position {
            x: if p.x == grid.width - 1 { 0i32 } else { (p.x + 1) as i32 },
            y: p.y,
        }),
        grid.neighbor_spec(p, Direction::Up) == (Position {
            x: p.x,
            y: if p.y == grid.height - 1 { 0i32 } else { (p.y + 1) as i32 },
        }),
        grid.neighbor_spec(p, Direction::Down) == (Position {
            x: p.x,
            y: if p.y == 0 { (grid.height - 1) as i32 } else { (p.y - 1) as i32 },
        }),
        forall|d: Direction| grid.contains(#[trigger] grid.neighbor_spec(p, d)),
{
    assert forall|d: Direction| grid.contains(#[trigger] grid.neighbor_spec(p, d)) by {
        match d {
            Direction::Left => {},
            Direction::Right => {},
            Direction::Up => {},
            Direction::Down => {},
        }
    }
}

/// A request for the exact opposite of the facing leaves the facing as it
/// is, and so does the absence of a request; any other request is followed.
pub proof fn lemma_reversal_is_rejected(facing: Direction, request: Direction)
    ensures
        resolved(facing, Some(facing.opposite())) == facing,
        resolved(facing, None) == facing,
        request != facing.opposite() ==> resolved(facing, Some(request)) == request,
        resolved(facing, Some(request)) != facing.opposite(),
{
}

/// No two segments of a snake have the same handle.
pub proof fn lemma_handles_are_distinct(segments: Seq<Segment>)
    requires
        is_snake(segments),
    ensures
        forall|i: int, j: int|
            0 <= i < j < segments.len() ==> (#[trigger] segments[i]).id != (#[trigger] segments[j]).id,
        ids_of(segments).no_duplicates(),
{
    let ids = ids_of(segments);
    assert forall|i: int, j: int| 0 <= i < ids.len() && 0 <= j < ids.len() && i != j implies ids[i]
        != ids[j] by {
        assert(segments[i].id == i && segments[j].id == j);
    }
}

/// Only growth changes which segments there are. Every other operation,
/// movement among them, leaves the handles as they are, in their order; a
/// growth adds one handle at the tail end, which no segment had before.
pub proof fn lemma_only_growth_changes_identities(s: GameView, op: Step)
    requires
        s.wf(),
    ensures
        !grows(s, op) ==> ids_of(step(s, op).segments) == ids_of(s.segments),
        grows(s, op) ==> {
            &&& step(s, op).segments.len() == s.segments.len() + 1
            &&& ids_of(step(s, op).segments) == ids_of(s.segments).push(s.segments.len() as u64)
            &&& !ids_of(s.segments).contains(s.segments.len() as u64)
        },
{
    let before = ids_of(s.segments);
    let after = ids_of(step(s, op).segments);
    if grows(s, op) {
        assert(after =~= before.push(s.segments.len() as u64));
        assert forall|i: int| 0 <= i < before.len() implies before[i] != s.segments.len() as u64 by {
            assert(s.segments[i].id == i);
        }
    } else {
        assert(after =~= before);
    }
}

/// A meal is counted whole: on the tick on which the head comes onto the
/// food, one more item is eaten, one less is outstanding, the food is gone,
/// and the snake is one segment longer, the new segment being on the cell
/// that the tail held before the tick. On any other tick none of these
/// changes.
pub proof fn lemma_growth_conservation(s: GameView)
    requires
        s.wf(),
    ensures
        s.after_movement().eats() ==> {
            let t = s.after_movement_tick();
            &&& t.state.eaten == s.state.eaten + 1
            &&& t.state.backlog == s.state.backlog - 1
            &&& t.segments.len() == s.segments.len() + 1
            &&& t.segments.last().position == s.segments.last().position
            &&& t.food is None
            &&& t.state.status == s.state.status
        },
        !s.after_movement().eats() ==> {
            let t = s.after_movement_tick();
            &&& t.state.eaten == s.state.eaten
            &&& t.state.backlog == s.state.backlog
            &&& t.segments.len() == s.segments.len()
        },
{
}

/// A session that has ended is inert: no run of operations changes
/// anything of its state, so its status never changes again.
pub proof fn lemma_terminal_state_is_inert(s: GameView, ops: Seq<Step>)
    requires
        s.state.status.is_terminal(),
    ensures
        run(s, ops) == s,
    decreases ops.len(),
{
    if ops.len() > 0 {
        assert(step(s, ops[0]) == s);
        lemma_terminal_state_is_inert(s, ops.drop_first());
    }
}

/// The terminal event is given once: an operation gives it exactly when it
/// ends a session that was in progress, and then it carries the status that
/// the session ended with; on a session that has ended, neither the
/// evaluation of the thresholds nor a step changes the status or gives an
/// event.
pub proof fn lemma_terminal_event_is_given_once(s: GameView)
    ensures
        s.status_event() is Some <==> s.in_progress() && s.after_status_update().state.status.is_terminal(),
        s.status_event() matches Some(outcome) ==> s.after_status_update().state.status == outcome,
        s.movement_event() is Some <==> s.in_progress() && s.after_movement().state.status.is_terminal(),
        s.movement_event() matches Some(outcome) ==> s.after_movement().state.status == outcome,
        s.state.status.is_terminal() ==> {
            &&& s.after_status_update() == s
            &&& s.status_event() is None
            &&& s.after_movement_tick() == s
            &&& s.movement_event() is None
        },
        s.after_status_update().status_event() is None,
        s.after_status_update().after_status_update() == s.after_status_update(),
{
}

/// Self-collision: when the head steps onto a cell that a segment behind
/// it held before the step, the session is lost on that very tick, the
/// terminal event says so, and no run of operations afterwards gives it
/// another status.
pub proof fn lemma_self_collision_is_final(s: GameView, ops: Seq<Step>)
    requires
        s.wf(),
        s.in_progress(),
        s.collides(),
    ensures
        s.after_movement_tick().state.status == GameStatus::Lost,
        s.movement_event() == Some(GameStatus::Lost),
        run(s.after_movement_tick(), ops).state.status == GameStatus::Lost,
{
    lemma_terminal_state_is_inert(s.after_movement_tick(), ops);
}

/// Falling behind: when the thresholds are looked at with the backlog at
/// the loss threshold and the win not reached, the session is lost, and no
/// food is spawned in it afterwards, whatever is run.
pub proof fn lemma_falling_behind_is_final(s: GameView, ops: Seq<Step>)
    requires
        s.in_progress(),
        s.state.eaten < s.config.win_threshold,
        s.state.backlog >= s.config.loss_threshold,
    ensures
        s.after_status_update().state.status == GameStatus::Lost,
        s.status_event() == Some(GameStatus::Lost),
        s.after_status_update().food is None,
        run(s.after_status_update(), ops) == s.after_status_update(),
{
    lemma_terminal_state_is_inert(s.after_status_update(), ops);
}

} // verus!
