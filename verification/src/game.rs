//! The simulation context: one value that owns the snake, the food, the
//! counters and the status, and the operations that the two tickers and the
//! input pass run on it.

use crate::grid::{Direction, Grid, Position};
use crate::input::{resolved, snake_movement_input, PressedKeys, SnakeHead};
use crate::snake::{body_occupies, is_snake, shifted, start_body, start_head, start_segments, Segment, SnakeBody};
use crate::spawn::get_random_pos;
use crate::status::{GameState, GameStatus, FALL_BEHIND_LOSS_AMOUNT, FOOD_WIN_AMOUNT};
use vstd::prelude::*;

verus! {

pub const GRID_WIDTH: i32 = 35;

pub const GRID_HEIGHT: i32 = 30;

/// What a session is set up with: the grid and the two thresholds.
#[derive(Clone, Copy, Debug, PartialEq, Eq, Structural)]
pub struct Config {
    pub grid: Grid,
    pub win_threshold: u32,
    pub loss_threshold: u32,
}

impl Config {
    /// The grid must hold the two cells that the snake starts on.
    pub open spec fn wf(self) -> bool {
        &&& self.grid.wf()
        &&& self.grid.contains(start_head())
        &&& self.grid.contains(start_body())
    }

    /// A 35 x 30 grid, 50 to win, 15 outstanding to lose.
    pub fn standard() -> (config: Config)
        ensures
            config.wf(),
            config == (Config {
                grid: Grid { width: 35, height: 30 },
                win_threshold: 50,
                loss_threshold: 15,
            }),
    {
        Config {
            grid: Grid { width: GRID_WIDTH, height: GRID_HEIGHT },
            win_threshold: FOOD_WIN_AMOUNT,
            loss_threshold: FALL_BEHIND_LOSS_AMOUNT,
        }
    }

    /// A configuration of the given sizes, if the grid holds the cells that
    /// the snake starts on.
    pub fn new(width: i32, height: i32, win_threshold: u32, loss_threshold: u32) -> (config: Option<Config>)
        ensures
            config == (if width >= 4 && height >= 4 {
                Some(Config { grid: Grid { width, height }, win_threshold, loss_threshold })
            } else {
                None
            }),
            config matches Some(c) ==> c.wf(),
    {
        if width >= 4 && height >= 4 {
            Some(Config { grid: Grid { width, height }, win_threshold, loss_threshold })
        } else {
            None
        }
    }
}

/// The state of a session as a mathematical value.
pub struct GameView {
    pub config: Config,
    /// The snake, head first.
    pub segments: Seq<Segment>,
    /// The head's facing.
    pub facing: Direction,
    /// The live food item, if there is one.
    pub food: Option<Position>,
    /// The cell that the tail left at the last step.
    pub last_tail: Option<Position>,
    pub state: GameState,
}

impl GameView {
    pub open spec fn wf(self) -> bool {
        &&& self.config.wf()
        &&& is_snake(self.segments)
        &&& forall|i: int|
            0 <= i < self.segments.len() ==> self.config.grid.contains(#[trigger] self.segments[i].position)
        &&& self.food matches Some(cell) ==> {
            &&& self.config.grid.contains(cell)
            &&& self.in_progress()
            &&& self.state.backlog >= 1
            &&& self.state.eaten < u32::MAX
        }
        &&& self.last_tail matches Some(cell) ==> self.config.grid.contains(cell)
    }

    pub open spec fn in_progress(self) -> bool {
        self.state.status == GameStatus::InProgress
    }

    pub open spec fn head_position(self) -> Position {
        self.segments[0].position
    }

    /// The state a session starts in.
    pub open spec fn initial(config: Config) -> GameView {
        GameView {
            config,
            segments: start_segments(),
            facing: Direction::Up,
            food: None,
            last_tail: None,
            state: GameState { status: GameStatus::InProgress, eaten: 0, backlog: 0 },
        }
    }

    /// The state once the session has ended with `outcome`: the status is
    /// set and the live food is gone.
    pub open spec fn ended(self, outcome: GameStatus) -> GameView {
        GameView { food: None, state: GameState { status: outcome, ..self.state }, ..self }
    }

    /// The state after the input pass. A session that has ended takes no
    /// input.
    pub open spec fn after_input(self, keys: PressedKeys) -> GameView {
        if self.in_progress() {
            GameView { facing: resolved(self.facing, keys.requested_spec()), ..self }
        } else {
            self
        }
    }

    /// The cell that the head steps onto next.
    pub open spec fn next_head(self) -> Position {
        self.config.grid.neighbor_spec(self.head_position(), self.facing)
    }

    /// Whether the next step takes the head onto a cell that a segment
    /// behind it is on before the step.
    pub open spec fn collides(self) -> bool {
        body_occupies(self.segments, self.next_head())
    }

    /// The state after the snake has moved one step. The step is taken in
    /// full also where it is a collision, which ends the session as lost.
    pub open spec fn after_movement(self) -> GameView {
        if self.in_progress() {
            let moved = GameView {
                segments: shifted(self.segments, self.next_head()),
                last_tail: Some(self.segments.last().position),
                ..self
            };
            if self.collides() {
                moved.ended(GameStatus::Lost)
            } else {
                moved
            }
        } else {
            self
        }
    }

    /// The terminal event of that step.
    pub open spec fn movement_event(self) -> Option<GameStatus> {
        if self.in_progress() && self.collides() {
            Some(GameStatus::Lost)
        } else {
            None
        }
    }

    /// Whether the head is on the live food.
    pub open spec fn eats(self) -> bool {
        self.in_progress() && self.food == Some(self.head_position())
    }

    /// The state after the food under the head, if there is any, was taken
    /// off the board.
    pub open spec fn after_eating(self) -> GameView {
        if self.eats() {
            GameView { food: None, ..self }
        } else {
            self
        }
    }

    /// Whether growth is in order: a food item was taken off the board and
    /// is not yet counted, and the tail has left a cell to grow onto.
    pub open spec fn can_grow(self) -> bool {
        self.in_progress() ==> {
            &&& self.last_tail is Some
            &&& self.food is None
            &&& self.state.backlog >= 1
            &&& self.state.eaten < u32::MAX
        }
    }

    /// The state after the snake has grown by one segment, on the cell that
    /// the tail left at the last step.
    pub open spec fn after_growth(self) -> GameView {
        if self.in_progress() {
            GameView {
                segments: self.segments.push(
                    Segment { id: self.segments.len() as u64, position: self.last_tail.unwrap() },
                ),
                state: self.state.meal_counted(),
                ..self
            }
        } else {
            self
        }
    }

    /// The state after one movement tick: the step, then the look for food
    /// under the head, then the growth that a meal brings.
    pub open spec fn after_movement_tick(self) -> GameView {
        let moved = self.after_movement();
        if moved.eats() {
            moved.after_eating().after_growth()
        } else {
            moved
        }
    }

    /// The state after the counters were held against the thresholds.
    pub open spec fn after_status_update(self) -> GameView {
        let outcome = self.state.evaluated(self.config.win_threshold, self.config.loss_threshold).status;
        if self.in_progress() && outcome.is_terminal() {
            self.ended(outcome)
        } else {
            self
        }
    }

    /// The terminal event of that evaluation.
    pub open spec fn status_event(self) -> Option<GameStatus> {
        self.state.evaluation_event(self.config.win_threshold, self.config.loss_threshold)
    }

    /// Whether the counters have room for one more food item.
    pub open spec fn can_spawn(self) -> bool {
        self.in_progress() ==> self.state.backlog < u32::MAX && self.state.eaten < u32::MAX
    }

    /// The state after a food item was put on `cell`. It takes the place of
    /// a live one; whether the snake is on the cell is not looked at. A
    /// session that has ended spawns nothing.
    pub open spec fn after_spawn(self, cell: Position) -> GameView {
        if self.in_progress() {
            GameView { food: Some(cell), state: self.state.spawn_counted(), ..self }
        } else {
            self
        }
    }

    /// Whether `after` is what a spawn on some cell of the grid leaves of
    /// this state.
    pub open spec fn spawns_into(self, after: GameView) -> bool {
        if self.in_progress() {
            &&& after.food matches Some(cell)
            &&& self.config.grid.contains(cell)
            &&& after == self.after_spawn(cell)
        } else {
            after == self
        }
    }

    /// The state after one status tick that spawns on `cell`: the
    /// evaluation comes first, the spawn second.
    pub open spec fn after_status_tick(self, cell: Position) -> GameView {
        self.after_status_update().after_spawn(cell)
    }
}

/// A session.
pub struct Game {
    config: Config,
    body: SnakeBody,
    head: SnakeHead,
    food: Option<Position>,
    last_tail: Option<Position>,
    state: GameState,
}

impl Game {
    pub closed spec fn view(&self) -> GameView {
        GameView {
            config: self.config,
            segments: self.body@,
            facing: self.head.direction,
            food: self.food,
            last_tail: self.last_tail,
            state: self.state,
        }
    }

    pub open spec fn wf(&self) -> bool {
        self@.wf()
    }

    /// A new session: the snake of two segments on (3, 3) and (3, 2),
    /// facing up, no food, both counters at zero.
    pub fn new(config: Config) -> (game: Game)
        requires
            config.wf(),
        ensures
            game.wf(),
            game@ == GameView::initial(config),
    {
        Game {
            config,
            body: SnakeBody::spawn_snake(),
            head: SnakeHead::new(),
            food: None,
            last_tail: None,
            state: GameState::new(),
        }
    }

    pub fn config(&self) -> (config: Config)
        ensures
            config == self@.config,
    {
        self.config
    }

    pub fn status(&self) -> (status: GameStatus)
        ensures
            status == self@.state.status,
    {
        self.state.status
    }

    /// The number of food items eaten: the score.
    pub fn eaten(&self) -> (n: u32)
        ensures
            n == self@.state.eaten,
    {
        self.state.eaten
    }

    /// The number of food items spawned and not eaten.
    pub fn backlog(&self) -> (n: u32)
        ensures
            n == self@.state.backlog,
    {
        self.state.backlog
    }

    pub fn food(&self) -> (food: Option<Position>)
        ensures
            food == self@.food,
    {
        self.food
    }

    pub fn facing(&self) -> (facing: Direction)
        ensures
            facing == self@.facing,
    {
        self.head.direction
    }

    pub fn last_tail_position(&self) -> (cell: Option<Position>)
        ensures
            cell == self@.last_tail,
    {
        self.last_tail
    }

    /// The number of segments.
    pub fn len(&self) -> (n: usize)
        ensures
            n == self@.segments.len(),
    {
        self.body.len()
    }

    pub fn segment(&self, i: usize) -> (segment: Segment)
        requires
            i < self@.segments.len(),
        ensures
            segment == self@.segments[i as int],
    {
        self.body.segment(i)
    }

    pub fn head_position(&self) -> (cell: Position)
        requires
            self.wf(),
        ensures
            cell == self@.head_position(),
    {
        self.body.head_position()
    }

    /// The cells of all segments, head first.
    pub fn positions(&self) -> (cells: Vec<Position>)
        ensures
            cells@ == crate::snake::positions_of(self@.segments),
    {
        self.body.positions()
    }

    /// The handles of all segments, head first.
    pub fn ids(&self) -> (handles: Vec<u64>)
        ensures
            handles@ == crate::snake::ids_of(self@.segments),
    {
        self.body.ids()
    }

    /// Ends the session with `outcome` and hands back the terminal event.
    fn game_over(&mut self, outcome: GameStatus) -> (event: GameStatus)
        requires
            old(self).wf(),
            outcome.is_terminal(),
        ensures
            final(self).wf(),
            final(self)@ == old(self)@.ended(outcome),
            event == outcome,
    {
        self.state.status = outcome;
        self.food = None;
        outcome
    }

    /// The input pass: turns the head as the held keys ask, unless they ask
    /// for a reversal.
    pub fn snake_movement_input(&mut self, keys: PressedKeys)
        requires
            old(self).wf(),
        ensures
            final(self).wf(),
            final(self)@ == old(self)@.after_input(keys),
    {
        if !self.state.status.is_over() {
            snake_movement_input(keys, &mut self.head);
        }
    }

    /// Moves the snake one step in the head's facing. Returns the terminal
    /// event where the head ran into the body.
    pub fn snake_movement(&mut self) -> (event: Option<GameStatus>)
        requires
            old(self).wf(),
        ensures
            final(self).wf(),
            final(self)@ == old(self)@.after_movement(),
            event == old(self)@.movement_event(),
    {
        if self.state.status.is_over() {
            return None;
        }
        let target: Position = self.config.grid.neighbor(self.body.head_position(), self.head.direction);
        let hit: bool = self.body.hits_body(target);
        let left_behind: Position = self.body.advance(target);
        self.last_tail = Some(left_behind);
        if hit {
            Some(self.game_over(GameStatus::Lost))
        } else {
            None
        }
    }

    /// Takes the food under the head off the board. Returns whether there
    /// was any: the signal to grow.
    pub fn snake_eating(&mut self) -> (signal: bool)
        requires
            old(self).wf(),
        ensures
            final(self).wf(),
            final(self)@ == old(self)@.after_eating(),
            signal == old(self)@.eats(),
    {
        if self.state.status.is_over() {
            return false;
        }
        let head: Position = self.body.head_position();
        match self.food {
            Some(cell) => {
                if cell == head {
                    self.food = None;
                    true
                } else {
                    false
                }
            },
            None => false,
        }
    }

    /// Grows the snake by one segment on the cell that the tail left at the
    /// last step, and counts the meal.
    pub fn snake_growth(&mut self)
        requires
            old(self).wf(),
            old(self)@.can_grow(),
        ensures
            final(self).wf(),
            final(self)@ == old(self)@.after_growth(),
    {
        if self.state.status.is_over() {
            return;
        }
        match self.last_tail {
            Some(cell) => {
                self.body.spawn_snake_part(cell);
                self.state.inc_and_dec();
            },
            None => {},
        }
    }

    /// One movement tick: the step, then the meal and the growth it brings.
    /// Returns the terminal event where the session ended by the step.
    pub fn movement_tick(&mut self) -> (event: Option<GameStatus>)
        requires
            old(self).wf(),
        ensures
            final(self).wf(),
            final(self)@ == old(self)@.after_movement_tick(),
            event == old(self)@.movement_event(),
    {
        let event = self.snake_movement();
        if self.snake_eating() {
            self.snake_growth();
        }
        event
    }

    /// Holds the counters against the thresholds. Returns the terminal
    /// event where the session ended by that.
    pub fn update_game_status(&mut self) -> (event: Option<GameStatus>)
        requires
            old(self).wf(),
        ensures
            final(self).wf(),
            final(self)@ == old(self)@.after_status_update(),
            event == old(self)@.status_event(),
    {
        let mut evaluated: GameState = self.state;
        let event = evaluated.update_game_status(self.config.win_threshold, self.config.loss_threshold);
        match event {
            Some(outcome) => Some(self.game_over(outcome)),
            None => None,
        }
    }

    /// Puts a food item on `cell`, unless the session has ended.
    pub fn place_food(&mut self, cell: Position)
        requires
            old(self).wf(),
            old(self)@.config.grid.contains(cell),
            old(self)@.can_spawn(),
        ensures
            final(self).wf(),
            final(self)@ == old(self)@.after_spawn(cell),
    {
        if self.state.status.is_over() {
            return;
        }
        self.food = Some(cell);
        self.state.handle_render_event();
    }

    /// Puts a food item on a cell picked at random, unless the session has
    /// ended.
    pub fn food_spawner(&mut self)
        requires
            old(self).wf(),
            old(self)@.can_spawn(),
        ensures
            final(self).wf(),
            old(self)@.spawns_into(final(self)@),
    {
        if self.state.status.is_over() {
            return;
        }
        let cell: Position = get_random_pos(&self.config.grid);
        self.place_food(cell);
    }

    /// One status tick that spawns on `cell`: the evaluation, then the spawn.
    pub fn status_tick_at(&mut self, cell: Position) -> (event: Option<GameStatus>)
        requires
            old(self).wf(),
            old(self)@.config.grid.contains(cell),
        ensures
            final(self).wf(),
            final(self)@ == old(self)@.after_status_tick(cell),
            event == old(self)@.status_event(),
    {
        let event = self.update_game_status();
        self.place_food(cell);
        event
    }

    /// One status tick: the evaluation, then a spawn on a cell picked at
    /// random.
    pub fn status_tick(&mut self) -> (event: Option<GameStatus>)
        requires
            old(self).wf(),
        ensures
            final(self).wf(),
            old(self)@.after_status_update().spawns_into(final(self)@),
            event == old(self)@.status_event(),
    {
        let event = self.update_game_status();
        self.food_spawner();
        event
    }
}

} // verus!
