use forgotten_temple::input::{parse_command, Command};
use forgotten_temple::room::Direction;
use forgotten_temple::ui::UiState;

#[test]
fn test_ui_state_initialization() {
    let state = UiState::new();
    assert!(state.feedback_text.contains("Welcome"));
    assert_eq!(state.input_text, "");
}

#[test]
fn test_handle_direction() {
    let mut state = UiState::new();
    state.handle_direction(Direction::North);
    assert!(state.feedback_text.contains("Ceremonial Antechamber"));
}

#[test]
fn test_process_input() {
    let mut state = UiState::new();
    state.input_text = "look".to_string();
    state.process_input();
    assert!(state.feedback_text.contains("Entrance Hall"));
    assert_eq!(state.input_text, "");
}

#[test]
fn test_help_command() {
    let mut state = UiState::new();
    state.handle_help();
    assert!(state.feedback_text.contains("Available commands"));
}

#[test]
fn the_welcome_is_exact() {
    let state = UiState::new();
    assert_eq!(
        state.feedback_text,
        "Welcome to the Forgotten Temple! Type 'help' for commands."
    );
    assert_eq!(state.game.player.location, "Entrance Hall");
    assert!(!state.game.is_game_over());
}

#[test]
fn empty_input_changes_nothing() {
    let mut state = UiState::new();
    state.process_input();
    assert_eq!(
        state.feedback_text,
        "Welcome to the Forgotten Temple! Type 'help' for commands."
    );
    assert_eq!(state.input_text, "");
}

#[test]
fn blank_input_is_answered_and_cleared() {
    let mut state = UiState::new();
    state.input_text = "   ".to_string();
    state.process_input();
    assert_eq!(state.feedback_text, "Please enter a command.");
    assert_eq!(state.input_text, "");
    assert_eq!(state.game.player.location, "Entrance Hall");
}

#[test]
fn input_that_is_no_command_is_answered_and_cleared() {
    let mut state = UiState::new();
    state.input_text = "go up".to_string();
    state.process_input();
    assert_eq!(
        state.feedback_text,
        "'up' is not a valid direction. Try 'north', 'east', 'south', or 'west'."
    );
    assert_eq!(state.input_text, "");
}

#[test]
fn typed_commands_reach_the_game() {
    let mut state = UiState::new();
    state.input_text = "Take Ancient Map".to_string();
    state.process_input();
    assert_eq!(state.feedback_text, "You take the ancient map.");
    assert_eq!(state.game.player.inventory, vec!["ancient map".to_string()]);
    state.input_text = "go north".to_string();
    state.process_input();
    assert_eq!(state.game.player.location, "Ceremonial Antechamber");
    state.input_text = "quit".to_string();
    state.process_input();
    assert_eq!(state.feedback_text, "Thanks for playing! Goodbye.");
    assert!(state.game.is_game_over());
}

#[test]
fn submit_shows_the_answer_or_the_message() {
    let mut state = UiState::new();
    state.input_text = "anything".to_string();
    state.submit(Err("No.".to_string()));
    assert_eq!(state.feedback_text, "No.");
    assert_eq!(state.input_text, "");
    state.input_text = "anything".to_string();
    state.submit(Ok(Command::Go(Direction::East)));
    assert!(state.feedback_text.starts_with("[ Ancient Crypt ]"));
    assert_eq!(state.input_text, "");
    state.submit(parse_command("inventory"));
    assert_eq!(state.feedback_text, "Your inventory is empty.");
}

#[test]
fn buttons_take_and_use() {
    let mut state = UiState::new();
    state.input_text = "typing".to_string();
    state.handle_take("ancient map".to_string());
    assert_eq!(state.feedback_text, "You take the ancient map.");
    assert_eq!(state.input_text, "typing");
    state.handle_use("ancient map".to_string());
    assert!(state.feedback_text.starts_with("You examine the ancient map."));
    state.handle_use("torch".to_string());
    assert_eq!(state.feedback_text, "You don't have a torch.");
    state.handle_take("torch".to_string());
    assert_eq!(state.feedback_text, "There is no torch here.");
}

#[test]
fn button_look_shows_the_room() {
    let mut state = UiState::new();
    state.handle_look();
    assert!(state.feedback_text.starts_with("[ Entrance Hall ]"));
    let seen = state.feedback_text.clone();
    state.handle_look();
    assert_eq!(state.feedback_text, seen);
}

#[test]
fn button_of_a_direction_without_exit() {
    let mut state = UiState::new();
    state.handle_direction(Direction::South);
    assert_eq!(state.feedback_text, "You can't go south from here.");
    assert_eq!(state.game.player.location, "Entrance Hall");
}

#[test]
fn button_use_knows_the_item_in_whatever_case() {
    let mut state = UiState::new();
    state.handle_direction(Direction::North);
    state.handle_direction(Direction::West);
    state.handle_take("Golden Idol".to_string());
    state.handle_direction(Direction::East);
    state.handle_direction(Direction::East);
    state.handle_direction(Direction::North);
    assert_eq!(state.game.player.location, "Temple Exit");
    state.handle_use("Golden Idol".to_string());
    assert!(state.game.is_game_over());
    assert!(state
        .feedback_text
        .contains("Congratulations! You have escaped the forgotten temple!"));
}
