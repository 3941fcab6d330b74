//! The status of a session and the two counters that decide it.

use vstd::prelude::*;

verus! {

/// Eating this many food items wins the session.
pub const FOOD_WIN_AMOUNT: u32 = 50;

/// Leaving this many spawned food items uneaten loses it.
pub const FALL_BEHIND_LOSS_AMOUNT: u32 = 15;

#[derive(Clone, Copy, Debug, PartialEq, Eq, Structural)]
pub enum GameStatus {
    InProgress,
    Won,
    Lost,
}

impl GameStatus {
    /// `Won` and `Lost` end the session for good.
    pub open spec fn is_terminal(self) -> bool {
        self != GameStatus::InProgress
    }

    pub fn is_over(&self) -> (b: bool)
        ensures
            b == self.is_terminal(),
    {
        match self {
            GameStatus::InProgress => false,
            _ => true,
        }
    }

    /// The line shown to the player when the session has ended.
    pub fn end_message(&self) -> (message: &'static str)
        requires
            self.is_terminal(),
        ensures
            message@ == (if *self == GameStatus::Won {
                "You won!"@
            } else {
                "You lost!"@
            }),
    {
        match self {
            GameStatus::Won => "You won!",
            _ => "You lost!",
        }
    }
}

/// What the thresholds say of a session with the given counters: a win takes
/// precedence over a loss.
pub open spec fn verdict(eaten: u32, backlog: u32, win: u32, loss: u32) -> GameStatus {
    if eaten >= win {
        GameStatus::Won
    } else if backlog >= loss {
        GameStatus::Lost
    } else {
        GameStatus::InProgress
    }
}

/// The status of a session with its counters: `eaten` counts the food
/// consumed, `backlog` the food spawned and not consumed.
#[derive(Clone, Copy, Debug, PartialEq, Eq, Structural)]
pub struct GameState {
    pub status: GameStatus,
    pub eaten: u32,
    pub backlog: u32,
}

impl GameState {
    pub fn new() -> (state: GameState)
        ensures
            state == (GameState { status: GameStatus::InProgress, eaten: 0, backlog: 0 }),
    {
        GameState { status: GameStatus::InProgress, eaten: 0, backlog: 0 }
    }

    /// The state after the thresholds were looked at once. A session that
    /// has ended stays as it is.
    pub open spec fn evaluated(self, win: u32, loss: u32) -> GameState {
        if self.status.is_terminal() {
            self
        } else {
            GameState { status: verdict(self.eaten, self.backlog, win, loss), ..self }
        }
    }

    /// The terminal event of that look: the new status when the session ends
    /// by it, nothing otherwise.
    pub open spec fn evaluation_event(self, win: u32, loss: u32) -> Option<GameStatus> {
        if !self.status.is_terminal() && self.evaluated(win, loss).status.is_terminal() {
            Some(self.evaluated(win, loss).status)
        } else {
            None
        }
    }

    /// Holds the counters against the thresholds and ends the session where
    /// one is reached. Returns the terminal event, which a session gives once.
    pub fn update_game_status(&mut self, win: u32, loss: u32) -> (event: Option<GameStatus>)
        ensures
            *final(self) == old(self).evaluated(win, loss),
            event == old(self).evaluation_event(win, loss),
    {
        if self.status.is_over() {
            return None;
        }
        if self.eaten >= win {
            self.status = GameStatus::Won;
            Some(GameStatus::Won)
        } else if self.backlog >= loss {
            self.status = GameStatus::Lost;
            Some(GameStatus::Lost)
        } else {
            None
        }
    }

    /// The state after one more food item was put on the board.
    pub open spec fn spawn_counted(self) -> GameState {
        GameState { backlog: (self.backlog + 1) as u32, ..self }
    }

    /// Counts a food item that was put on the board.
    pub fn handle_render_event(&mut self)
        requires
            old(self).backlog < u32::MAX,
        ensures
            *final(self) == old(self).spawn_counted(),
            final(self).backlog == old(self).backlog + 1,
    {
        self.backlog = self.backlog + 1;
    }

    /// The state after one food item on the board was consumed.
    pub open spec fn meal_counted(self) -> GameState {
        GameState { eaten: (self.eaten + 1) as u32, backlog: (self.backlog - 1) as u32, ..self }
    }

    /// Counts a consumed food item: one more eaten, one less outstanding.
    pub fn inc_and_dec(&mut self)
        requires
            old(self).eaten < u32::MAX,
            old(self).backlog >= 1,
        ensures
            *final(self) == old(self).meal_counted(),
            final(self).eaten == old(self).eaten + 1,
            final(self).backlog == old(self).backlog - 1,
    {
        self.eaten = self.eaten + 1;
        self.backlog = self.backlog - 1;
    }
}

} // verus!
