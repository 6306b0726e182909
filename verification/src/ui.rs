//! The state behind a front end with buttons and a text field: the text
//! that the player is typing, the last answer of the game, and the game.
//! Every control of such a front end is one of the calls below.

use vstd::prelude::*;
use vstd::string::*;
use crate::game::{initial, Game, GameView};
use crate::input::{parse_command, parsed, parsed_view, Command, CommandView};
use crate::room::Direction;

verus! {

/// What the player reads before the first command.
pub const WELCOME: &'static str = "Welcome to the Forgotten Temple! Type 'help' for commands.";

/// The state behind a front end.
#[derive(Debug, Clone)]
pub struct UiState {
    /// The text in the text field.
    pub input_text: String,
    /// The last answer to the player.
    pub feedback_text: String,
    /// The game.
    pub game: Game,
}

/// The state behind a front end as plain values.
pub struct UiStateView {
    pub input_text: Seq<char>,
    pub feedback_text: Seq<char>,
    pub game: GameView,
}

impl View for UiState {
    type V = UiStateView;

    open spec fn view(&self) -> UiStateView {
        UiStateView {
            input_text: self.input_text@,
            feedback_text: self.feedback_text@,
            game: self.game@,
        }
    }
}

impl UiStateView {
    /// The state after a command was given to the game: the game has
    /// applied it and its answer is shown; the text field is as it was.
    pub open spec fn commanded(self, command: CommandView) -> UiStateView {
        UiStateView {
            feedback_text: self.game.answer(command),
            game: self.game.after(command),
            ..self
        }
    }

    /// The state after the text field was read as `reading` and sent: a
    /// command was given to the game, anything else is shown to the player
    /// as it is; the text field is empty.
    pub open spec fn submitted(self, reading: Result<CommandView, Seq<char>>) -> UiStateView {
        match reading {
            Ok(command) => UiStateView { input_text: Seq::empty(), ..self.commanded(command) },
            Err(message) => UiStateView {
                input_text: Seq::empty(),
                feedback_text: message,
                ..self
            },
        }
    }
}

impl UiState {
    /// The state at the start: an empty text field, the welcome, and a
    /// game at its start.
    pub fn new() -> (r: UiState)
        ensures
            r@ == (UiStateView {
                input_text: Seq::empty(),
                feedback_text: WELCOME@,
                game: initial(),
            }),
    {
        UiState {
            input_text: String::new(),
            feedback_text: String::from_str(WELCOME),
            game: Game::new(),
        }
    }

    /// Sends what the parser read in the text field, and empties the
    /// field.
    pub fn submit(&mut self, reading: Result<Command, String>)
        ensures
            final(self)@ == old(self)@.submitted(parsed_view(reading)),
    {
        match reading {
            Ok(cmd) => {
                self.feedback_text = self.game.process_command(cmd);
            },
            Err(error) => {
                self.feedback_text = error;
            },
        }
        self.input_text = String::new();
    }

    /// Reads the text field as a command and sends it. An empty text
    /// field changes nothing.
    pub fn process_input(&mut self)
        ensures
            final(self)@ == if old(self)@.input_text.len() == 0 {
                old(self)@
            } else {
                old(self)@.submitted(parsed(old(self)@.input_text))
            },
    {
        if self.input_text.as_str().is_empty() {
            return;
        }
        let reading = parse_command(self.input_text.as_str());
        self.submit(reading);
    }

    /// The button of a direction: the player goes there.
    pub fn handle_direction(&mut self, direction: Direction)
        ensures
            final(self)@ == old(self)@.commanded(CommandView::Go(direction)),
    {
        self.feedback_text = self.game.process_command(Command::Go(direction));
    }

    /// The button of an item in the room: the player takes it.
    pub fn handle_take(&mut self, item: String)
        ensures
            final(self)@ == old(self)@.commanded(CommandView::Take(item@)),
    {
        self.feedback_text = self.game.process_command(Command::Take(item));
    }

    /// The button of an item in the inventory: the player uses it.
    pub fn handle_use(&mut self, item: String)
        ensures
            final(self)@ == old(self)@.commanded(CommandView::Use(item@)),
    {
        self.feedback_text = self.game.process_command(Command::Use(item));
    }

    /// The button to look around.
    pub fn handle_look(&mut self)
        ensures
            final(self)@ == old(self)@.commanded(CommandView::Look),
    {
        self.feedback_text = self.game.process_command(Command::Look);
    }

    /// The button for help.
    pub fn handle_help(&mut self)
        ensures
            final(self)@ == old(self)@.commanded(CommandView::Help),
    {
        self.feedback_text = self.game.process_command(Command::Help);
    }
}

} // verus!
