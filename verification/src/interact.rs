//! The player's hand: which stack it hovers over, what it holds, and how one
//! event changes hand and game.

use vstd::prelude::*;
use crate::game::GameState;
use crate::model::GameModel;
use crate::piece::{Error, Stack};

verus! {

/// One thing the player did.
#[derive(Debug, Clone, Copy)]
pub enum Event {
    /// Move the hand one stack to the left.
    Left,
    /// Move the hand one stack to the right.
    Right,
    /// Grab the top piece under the hand, or put down the piece held.
    Action,
    /// Anything else: the session ends.
    Other,
}

/// Where the hand is, and the stack whose top piece it holds, if any.
#[derive(Debug, Clone, Copy)]
pub struct InteractState {
    pub hand_column: Stack,
    pub grabbed: Option<Stack>,
}

impl InteractState {
    /// The hand is over one of the game's stacks, and a grabbed stack is one
    /// of the game's stacks and holds a piece.
    pub open spec fn valid_for(self, g: GameModel) -> bool {
        &&& g.valid_stack(self.hand_column)
        &&& match self.grabbed {
            Some(col) => g.valid_stack(col) && !g.stack_empty(col),
            None => true,
        }
    }

    /// Whether this hand is valid for `game`.
    pub fn is_valid_for(&self, game: &GameState) -> (ok: bool)
        requires
            game.wf(),
        ensures
            ok == self.valid_for(game@),
    {
        if !game.valid_stack(self.hand_column) {
            return false;
        }
        match self.grabbed {
            Some(col) => game.valid_stack(col) && game.stack_top(col).is_some(),
            None => true,
        }
    }

    /// The hand after `event` in game `g`.
    ///
    /// `Left` and `Right` move the hand by one stack and stop at the first
    /// and last stack. `Action` with an empty hand grabs the stack under the
    /// hand where it holds a piece; with a grabbed stack it lets go exactly
    /// when the move from there to the stack under the hand is made.
    pub open spec fn after(self, g: GameModel, event: Event) -> InteractState {
        match event {
            Event::Left => InteractState {
                hand_column: if self.hand_column > 0 {
                    (self.hand_column - 1) as u32
                } else {
                    self.hand_column
                },
                ..self
            },
            Event::Right => InteractState {
                hand_column: if self.hand_column + 1 < g.num_stacks {
                    (self.hand_column + 1) as u32
                } else {
                    self.hand_column
                },
                ..self
            },
            Event::Action => match self.grabbed {
                None => InteractState {
                    grabbed: if g.stack_empty(self.hand_column) {
                        None
                    } else {
                        Some(self.hand_column)
                    },
                    ..self
                },
                Some(col) => InteractState {
                    grabbed: if g.move_outcome(col, self.hand_column) == Ok::<bool, Error>(true) {
                        None
                    } else {
                        Some(col)
                    },
                    ..self
                },
            },
            Event::Other => self,
        }
    }

    /// The game after `event`: only `Action` with a grabbed stack asks for a
    /// move, from that stack to the one under the hand.
    pub open spec fn game_after(self, g: GameModel, event: Event) -> GameModel {
        match (event, self.grabbed) {
            (Event::Action, Some(col)) => g.after_move(col, self.hand_column),
            _ => g,
        }
    }

    /// Whether the session ends with `event`: after an `Action` that leaves
    /// the game complete, and on any event that is not understood.
    pub open spec fn ends_session(self, g: GameModel, event: Event) -> bool {
        match event {
            Event::Left | Event::Right => false,
            Event::Action => self.game_after(g, event).complete(),
            Event::Other => true,
        }
    }

    /// Applies `event` to hand and game, and says whether the session ends.
    pub fn handle_event(&mut self, game: &mut GameState, event: Event) -> (done: bool)
        requires
            old(game).wf(),
            old(self).valid_for(old(game)@),
        ensures
            final(game).wf(),
            final(self).valid_for(final(game)@),
            final(game)@ == old(self).game_after(old(game)@, event),
            *final(self) == old(self).after(old(game)@, event),
            done == old(self).ends_session(old(game)@, event),
    {
        match event {
            Event::Left => {
                if self.hand_column > 0 {
                    self.hand_column = self.hand_column - 1;
                }
                false
            },
            Event::Right => {
                if self.hand_column + 1 < game.num_stacks() {
                    self.hand_column = self.hand_column + 1;
                }
                false
            },
            Event::Action => {
                match self.grabbed {
                    None => {
                        self.grabbed =
                        match game.stack_top(self.hand_column) {
                            None => None,
                            Some(_) => Some(self.hand_column),
                        };
                    },
                    Some(col) => {
                        self.grabbed =
                        match game.try_move(col, self.hand_column) {
                            Ok(true) => None,
                            _ => Some(col),
                        };
                    },
                }
                game.complete()
            },
            Event::Other => true,
        }
    }
}

} // verus!
