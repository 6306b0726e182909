//! The command vocabulary, and the parser that reads a line of text as a
//! command.

use vstd::prelude::*;
use vstd::string::*;
use crate::room::Direction;
use crate::text::{
    is_text, join_from, joined, lowercase, names, split_words, to_lower, trim, trimmed, words,
};

verus! {

/// What a player can ask for.
#[derive(Debug, PartialEq)]
pub enum Command {
    /// Move in a direction ("go north").
    Go(Direction),
    /// Pick up an item ("take torch").
    Take(String),
    /// Use an item that the player carries ("use torch").
    Use(String),
    /// Show the inventory.
    Inventory,
    /// Look around the current room.
    Look,
    /// Show the list of commands.
    Help,
    /// Leave the game.
    Quit,
    /// Anything else, with the text as it was read.
    Unknown(String),
}

/// A command as plain values.
pub enum CommandView {
    Go(Direction),
    Take(Seq<char>),
    Use(Seq<char>),
    Inventory,
    Look,
    Help,
    Quit,
    Unknown(Seq<char>),
}

impl View for Command {
    type V = CommandView;

    open spec fn view(&self) -> CommandView {
        match self {
            Command::Go(d) => CommandView::Go(*d),
            Command::Take(item) => CommandView::Take(item@),
            Command::Use(item) => CommandView::Use(item@),
            Command::Inventory => CommandView::Inventory,
            Command::Look => CommandView::Look,
            Command::Help => CommandView::Help,
            Command::Quit => CommandView::Quit,
            Command::Unknown(raw) => CommandView::Unknown(raw@),
        }
    }
}

/// What the parser answers to a line as plain values: a command, or the
/// text that tells the player why the line is none.
pub open spec fn parsed_view(r: Result<Command, String>) -> Result<CommandView, Seq<char>> {
    match r {
        Ok(command) => Ok(command@),
        Err(message) => Err(message@),
    }
}

/// The answer to an empty line.
pub const NO_COMMAND: &'static str = "Please enter a command.";

/// The answer to "go" without a direction.
pub const GO_WHERE: &'static str =
    "Go where? Try 'go north', 'go east', 'go south', or 'go west'.";

/// The answer to "take" without an item.
pub const TAKE_WHAT: &'static str = "Take what? Please specify an item.";

/// The answer to "use" without an item.
pub const USE_WHAT: &'static str = "Use what? Please specify an item.";

/// What follows the word that is no direction, in the answer to it.
pub const NO_DIRECTION: &'static str =
    "' is not a valid direction. Try 'north', 'east', 'south', or 'west'.";

/// The answer to "go" with a word that is no direction.
pub open spec fn no_direction_text(word: Seq<char>) -> Seq<char> {
    "'"@ + word + NO_DIRECTION@
}

/// The command that a line of lowercase words stands for. The first word
/// chooses the kind of command; the others name the direction or, joined
/// by single spaces, the item. `whole` is the line that the words were
/// taken from: a line that begins with no known word is kept whole.
pub open spec fn classified(line: Seq<Seq<char>>, whole: Seq<char>) -> Result<
    CommandView,
    Seq<char>,
> {
    if line.len() == 0 {
        Err(NO_COMMAND@)
    } else {
        let verb = line[0];
        let rest = line.skip(1);
        if verb == "go"@ || verb == "move"@ {
            if rest.len() == 0 {
                Err(GO_WHERE@)
            } else {
                match Direction::named(lowercase(rest[0])) {
                    Some(d) => Ok(CommandView::Go(d)),
                    None => Err(no_direction_text(rest[0])),
                }
            }
        } else if verb == "take"@ || verb == "get"@ || verb == "pickup"@ {
            if rest.len() == 0 {
                Err(TAKE_WHAT@)
            } else {
                Ok(CommandView::Take(joined(rest, " "@)))
            }
        } else if verb == "use"@ {
            if rest.len() == 0 {
                Err(USE_WHAT@)
            } else {
                Ok(CommandView::Use(joined(rest, " "@)))
            }
        } else if verb == "inventory"@ || verb == "i"@ || verb == "inv"@ {
            Ok(CommandView::Inventory)
        } else if verb == "look"@ || verb == "l"@ {
            Ok(CommandView::Look)
        } else if verb == "help"@ || verb == "h"@ {
            Ok(CommandView::Help)
        } else if verb == "quit"@ || verb == "exit"@ || verb == "q"@ {
            Ok(CommandView::Quit)
        } else {
            Ok(CommandView::Unknown(whole))
        }
    }
}

/// What a line of text is read as: the line is trimmed and put in lowercase;
/// an empty line is no command; else its words decide.
pub open spec fn parsed(input: Seq<char>) -> Result<CommandView, Seq<char>> {
    let line = lowercase(trimmed(input));
    if line.len() == 0 {
        Err(NO_COMMAND@)
    } else {
        classified(words(line), line)
    }
}

/// Reads a line that was already trimmed, put in lowercase and split into
/// its words.
pub fn classify(line: &Vec<String>, whole: &str) -> (r: Result<Command, String>)
    ensures
        parsed_view(r) == classified(names(line@), whole@),
{
    if line.is_empty() {
        return Err(String::from_str(NO_COMMAND));
    }
    let verb = &line[0];
    let ghost rest = names(line@).skip(1);
    if is_text(verb, "go") || is_text(verb, "move") {
        if line.len() < 2 {
            return Err(String::from_str(GO_WHERE));
        }
        assert(rest[0] == line@[1]@);
        match Direction::from_string(line[1].as_str()) {
            Some(direction) => Ok(Command::Go(direction)),
            None => {
                let mut message = String::from_str("'");
                message.append(line[1].as_str());
                message.append(NO_DIRECTION);
                Err(message)
            },
        }
    } else if is_text(verb, "take") || is_text(verb, "get") || is_text(verb, "pickup") {
        if line.len() < 2 {
            return Err(String::from_str(TAKE_WHAT));
        }
        Ok(Command::Take(join_from(line, 1, " ")))
    } else if is_text(verb, "use") {
        if line.len() < 2 {
            return Err(String::from_str(USE_WHAT));
        }
        Ok(Command::Use(join_from(line, 1, " ")))
    } else if is_text(verb, "inventory") || is_text(verb, "i") || is_text(verb, "inv") {
        Ok(Command::Inventory)
    } else if is_text(verb, "look") || is_text(verb, "l") {
        Ok(Command::Look)
    } else if is_text(verb, "help") || is_text(verb, "h") {
        Ok(Command::Help)
    } else if is_text(verb, "quit") || is_text(verb, "exit") || is_text(verb, "q") {
        Ok(Command::Quit)
    } else {
        Ok(Command::Unknown(String::from_str(whole)))
    }
}

/// Reads a line of text as a command, without regard to case or to the
/// whitespace around it. A line without a word, or without the direction
/// or item that its first word asks for, gives the text that says so; a
/// line that begins with no known word is a command of its own kind.
pub fn parse_command(input: &str) -> (r: Result<Command, String>)
    ensures
        parsed_view(r) == parsed(input@),
{
    let line = to_lower(trim(input));
    if line.as_str().is_empty() {
        return Err(String::from_str(NO_COMMAND));
    }
    let parts = split_words(line.as_str());
    classify(&parts, line.as_str())
}

} // verus!
