use forgotten_temple::game::{describe, Game, ESCAPE, GOODBYE, HELP, ROOM_NOT_FOUND};
use forgotten_temple::input::Command;
use forgotten_temple::player::Player;
use forgotten_temple::room::{create_rooms, Direction, Room};

const ENTRANCE_TEXT: &str = "You stand in the grand entrance hall of the forgotten temple. Ancient symbols cover the walls, and dust particles dance in the beams of light from cracks in the ceiling. The air is thick with the scent of ages past.";

const TREASURE_TEXT: &str = "Glinting gold and artifacts fill this small chamber. Ceremonial masks, jeweled daggers, and strange artifacts cover every surface. Despite the wealth displayed here, an ornate stone pedestal in the center stands empty, with a small inscription that reads 'Place the sacred idol to reveal the path.'";

const EXIT_TEXT: &str = "Sunlight streams through a crack in the stone wall, illuminating a narrow passage. This appears to be an exit from the temple, but heavy stone doors block the way. There's a keyhole shaped like an idol in the center of the doors.";

fn take(game: &mut Game, item: &str) -> String {
    game.process_command(Command::Take(item.to_string()))
}

fn use_item(game: &mut Game, item: &str) -> String {
    game.process_command(Command::Use(item.to_string()))
}

fn go(game: &mut Game, direction: Direction) -> String {
    game.process_command(Command::Go(direction))
}

/// Walks from the entrance hall to the guardian chamber, takes the idol,
/// and walks on to the temple exit.
fn walk_to_exit_with_idol(game: &mut Game) {
    go(game, Direction::North);
    go(game, Direction::West);
    take(game, "golden idol");
    go(game, Direction::East);
    go(game, Direction::East);
    go(game, Direction::North);
}

#[test]
fn test_game_initialization() {
    let game = Game::new();
    assert_eq!(game.player.location, "Entrance Hall");
    assert_eq!(game.player.inventory.len(), 0);
    assert_eq!(game.game_over, false);
}

#[test]
fn test_process_go_command() {
    let mut game = Game::new();
    let result = game.process_command(Command::Go(Direction::North));
    assert_eq!(game.player.location, "Ceremonial Antechamber");
    assert!(result.contains("Ceremonial Antechamber"));

    // Try an invalid direction
    let result = game.process_command(Command::Go(Direction::North));
    assert_eq!(game.player.location, "Ceremonial Antechamber"); // Location shouldn't change
    assert!(result.contains("can't go"));
}

#[test]
fn test_take_item() {
    let mut game = Game::new();
    let result = game.process_command(Command::Take("ancient map".to_string()));
    assert!(game.player.inventory.contains(&"ancient map".to_string()));
    assert!(result.contains("You take"));

    // Try taking a nonexistent item
    let result = game.process_command(Command::Take("gold coin".to_string()));
    assert!(!game.player.inventory.contains(&"gold coin".to_string()));
    assert!(result.contains("There is no"));
}

#[test]
fn new_game_has_six_rooms_and_no_message() {
    let game = Game::new();
    assert_eq!(game.rooms.len(), 6);
    assert_eq!(game.message, "");
    assert!(!game.is_game_over());
}

#[test]
fn first_look_is_exact() {
    let game = Game::new();
    let expected = format!(
        "[ Entrance Hall ]\n\n{}\n\nExits: north east\n\nYou see:\n- ancient map",
        ENTRANCE_TEXT
    );
    assert_eq!(game.look_around(), expected);
}

#[test]
fn look_command_equals_look_around() {
    let mut game = Game::new();
    let seen = game.look_around();
    assert_eq!(game.process_command(Command::Look), seen);
}

#[test]
fn look_around_twice_gives_the_same_text() {
    let mut game = Game::new();
    assert_eq!(game.look_around(), game.look_around());
    go(&mut game, Direction::North);
    take(&mut game, "ceremonial dagger");
    let first = game.look_around();
    let second = game.look_around();
    assert_eq!(first, second);
}

#[test]
fn look_without_items_has_no_item_list() {
    let mut game = Game::new();
    take(&mut game, "ancient map");
    let expected = format!("[ Entrance Hall ]\n\n{}\n\nExits: north east", ENTRANCE_TEXT);
    assert_eq!(game.look_around(), expected);
}

#[test]
fn go_without_exit_changes_nothing() {
    let mut game = Game::new();
    for direction in [Direction::South, Direction::West] {
        let word = direction.to_string().to_string();
        let result = go(&mut game, direction);
        assert_eq!(result, format!("You can't go {} from here.", word));
        assert_eq!(game.player.location, "Entrance Hall");
        assert_eq!(game.player.inventory.len(), 0);
        assert!(!game.game_over);
    }
}

#[test]
fn go_through_every_exit_of_the_entrance_hall() {
    let mut game = Game::new();
    let result = go(&mut game, Direction::East);
    assert_eq!(game.player.location, "Ancient Crypt");
    assert!(result.starts_with("[ Ancient Crypt ]\n\n"));
    let result = go(&mut game, Direction::West);
    assert_eq!(game.player.location, "Entrance Hall");
    assert!(result.contains("Entrance Hall"));
}

#[test]
fn the_whole_map_is_connected_as_drawn() {
    let mut game = Game::new();
    let path = [
        (Direction::North, "Ceremonial Antechamber"),
        (Direction::West, "Guardian Chamber"),
        (Direction::East, "Ceremonial Antechamber"),
        (Direction::East, "Treasure Room"),
        (Direction::North, "Temple Exit"),
        (Direction::South, "Treasure Room"),
        (Direction::West, "Ceremonial Antechamber"),
        (Direction::South, "Entrance Hall"),
        (Direction::East, "Ancient Crypt"),
        (Direction::West, "Entrance Hall"),
    ];
    for (direction, name) in path {
        let result = go(&mut game, direction);
        assert_eq!(game.player.location, name);
        assert!(result.contains(name));
    }
}

#[test]
fn take_ignores_case_and_keeps_the_name_as_written() {
    let mut game = Game::new();
    let result = take(&mut game, "Ancient MAP");
    assert_eq!(result, "You take the Ancient MAP.");
    assert_eq!(game.player.inventory, vec!["Ancient MAP".to_string()]);
    assert!(game.rooms[0].items.is_empty());
}

#[test]
fn take_absent_item_changes_nothing() {
    let mut game = Game::new();
    let result = take(&mut game, "gold coin");
    assert_eq!(result, "There is no gold coin here.");
    assert!(game.player.inventory.is_empty());
    assert_eq!(game.rooms[0].items, vec!["ancient map".to_string()]);
}

#[test]
fn take_twice_finds_the_item_only_once() {
    let mut game = Game::new();
    assert_eq!(take(&mut game, "ancient map"), "You take the ancient map.");
    assert_eq!(take(&mut game, "ancient map"), "There is no ancient map here.");
    assert_eq!(game.player.inventory, vec!["ancient map".to_string()]);
}

#[test]
fn take_removes_one_of_two_equal_items() {
    let mut game = Game::new();
    game.rooms[0].add_item("Ancient Map");
    game.rooms[0].add_item("torch");
    take(&mut game, "ANCIENT MAP");
    assert_eq!(game.rooms[0].items, vec!["Ancient Map".to_string(), "torch".to_string()]);
    assert_eq!(game.player.inventory, vec!["ANCIENT MAP".to_string()]);
    for i in 1..6 {
        let fresh = create_rooms();
        assert_eq!(game.rooms[i].items, fresh[i].items);
    }
}

#[test]
fn inventory_command_lists_items_in_order() {
    let mut game = Game::new();
    assert_eq!(game.process_command(Command::Inventory), "Your inventory is empty.");
    take(&mut game, "ancient map");
    go(&mut game, Direction::East);
    take(&mut game, "torch");
    assert_eq!(
        game.process_command(Command::Inventory),
        "You are carrying:\n- ancient map\n- torch\n"
    );
}

#[test]
fn use_without_the_item_changes_nothing_in_any_room() {
    let mut game = Game::new();
    let path = [
        Direction::North,
        Direction::West,
        Direction::East,
        Direction::East,
        Direction::North,
        Direction::South,
    ];
    for direction in path {
        let before = game.player.location.clone();
        assert_eq!(use_item(&mut game, "golden idol"), "You don't have a golden idol.");
        assert_eq!(game.player.location, before);
        assert!(game.player.inventory.is_empty());
        assert!(!game.is_game_over());
        go(&mut game, direction);
    }
}

#[test]
fn use_idol_at_the_exit_wins() {
    let mut game = Game::new();
    walk_to_exit_with_idol(&mut game);
    assert_eq!(game.player.location, "Temple Exit");
    assert!(!game.is_game_over());
    let result = use_item(&mut game, "golden idol");
    assert!(game.is_game_over());
    assert!(result.contains("Congratulations! You have escaped the forgotten temple!"));
    assert_eq!(result, ESCAPE);
    assert_eq!(result, "You place the golden idol in the keyhole. With a rumble, the stone doors slowly open, revealing the path to freedom. Sunlight streams in, blinding you momentarily. \n\nCongratulations! You have escaped the forgotten temple!");
    assert_eq!(game.player.inventory, vec!["golden idol".to_string()]);
}

#[test]
fn use_idol_at_the_exit_without_it_does_not_win() {
    let mut game = Game::new();
    go(&mut game, Direction::North);
    go(&mut game, Direction::East);
    go(&mut game, Direction::North);
    assert_eq!(game.player.location, "Temple Exit");
    let result = use_item(&mut game, "golden idol");
    assert!(result.contains("don't have"));
    assert!(!game.is_game_over());
}

#[test]
fn use_idol_elsewhere_does_not_win() {
    let mut game = Game::new();
    go(&mut game, Direction::North);
    go(&mut game, Direction::West);
    take(&mut game, "golden idol");
    assert_eq!(use_item(&mut game, "golden idol"), "You can't use the golden idol here.");
    assert!(!game.is_game_over());
}

#[test]
fn use_idol_at_the_exit_wins_in_whatever_case() {
    let mut game = Game::new();
    walk_to_exit_with_idol(&mut game);
    let result = use_item(&mut game, "Golden Idol");
    assert!(game.is_game_over());
    assert!(result.contains("Congratulations! You have escaped the forgotten temple!"));
    assert_eq!(result, ESCAPE);
    assert_eq!(game.player.inventory, vec!["golden idol".to_string()]);

    let mut game = Game::new();
    walk_to_exit_with_idol(&mut game);
    assert_eq!(use_item(&mut game, "GOLDEN IDOL"), ESCAPE);
    assert!(game.is_game_over());
}

#[test]
fn use_finds_every_item_of_the_table_in_whatever_case() {
    let mut game = Game::new();
    take(&mut game, "Ancient Map");
    assert!(use_item(&mut game, "ANCIENT map").starts_with("You examine the ancient map."));
    go(&mut game, Direction::East);
    take(&mut game, "torch");
    assert!(use_item(&mut game, "Torch").starts_with("You light the torch."));
    go(&mut game, Direction::West);
    go(&mut game, Direction::North);
    take(&mut game, "ceremonial dagger");
    assert!(use_item(&mut game, "Ceremonial Dagger")
        .starts_with("You place the ceremonial dagger on the altar."));
    assert!(!game.is_game_over());
}

#[test]
fn use_without_use_names_the_item_as_written() {
    let mut game = Game::new();
    take(&mut game, "ancient map");
    go(&mut game, Direction::North);
    assert_eq!(use_item(&mut game, "Ancient MAP"), "You can't use the Ancient MAP here.");
    assert!(!game.is_game_over());
}

#[test]
fn use_compares_the_name_of_the_room_as_written() {
    let mut exit = Room::new("temple exit", "A door.", true, Some("golden idol".to_string()));
    exit.add_item("golden idol");
    let mut game = Game {
        rooms: vec![exit],
        player: Player::new("temple exit"),
        game_over: false,
        message: String::new(),
    };
    take(&mut game, "golden idol");
    assert_eq!(use_item(&mut game, "golden idol"), "You can't use the golden idol here.");
    assert!(!game.is_game_over());
}

#[test]
fn handlers_answer_as_the_commands_do() {
    let mut game = Game::new();
    let mut other = Game::new();
    assert_eq!(game.handle_take("ancient map"), take(&mut other, "ancient map"));
    assert_eq!(game.handle_go(Direction::South), go(&mut other, Direction::South));
    assert_eq!(game.handle_go(Direction::North), go(&mut other, Direction::North));
    assert_eq!(game.handle_use("ancient map"), use_item(&mut other, "ancient map"));
    assert_eq!(game.handle_use("torch"), use_item(&mut other, "torch"));
    assert_eq!(game.display_help(), other.process_command(Command::Help));
    assert_eq!(game.player.location, other.player.location);
    assert_eq!(game.player.inventory, other.player.inventory);
    assert_eq!(game.rooms[0].items, other.rooms[0].items);
}

#[test]
fn check_win_condition_leaves_a_message_only_at_an_exit() {
    let mut game = Game::new();
    game.check_win_condition();
    assert_eq!(game.message, "");
    game.player.location = "Temple Exit".to_string();
    game.check_win_condition();
    assert_eq!(
        game.message,
        "This appears to be an exit, but it's blocked. You need a golden idol to proceed."
    );
    game.player.take_item("Golden Idol");
    game.check_win_condition();
    assert_eq!(
        game.message,
        "You've reached the exit with the golden idol! Use the item to escape."
    );
    assert!(!game.is_game_over());
    game.player.location = "Treasure Room".to_string();
    game.check_win_condition();
    assert_eq!(
        game.message,
        "You've reached the exit with the golden idol! Use the item to escape."
    );
}

#[test]
fn use_torch_in_the_crypt() {
    let mut game = Game::new();
    go(&mut game, Direction::East);
    take(&mut game, "torch");
    assert_eq!(use_item(&mut game, "torch"), "You light the torch. The crypt is now illuminated, revealing ancient inscriptions on the walls that were previously hidden in darkness.");
    assert_eq!(game.player.inventory, vec!["torch".to_string()]);
    assert!(!game.is_game_over());
}

#[test]
fn use_map_in_the_entrance_hall() {
    let mut game = Game::new();
    take(&mut game, "ancient map");
    assert_eq!(use_item(&mut game, "ancient map"), "You examine the ancient map. It shows the layout of the temple, confirming your suspicions about the locations of the rooms. The exit appears to be north of the Treasure Room.");
}

#[test]
fn use_dagger_in_the_antechamber() {
    let mut game = Game::new();
    go(&mut game, Direction::North);
    take(&mut game, "ceremonial dagger");
    assert_eq!(use_item(&mut game, "ceremonial dagger"), "You place the ceremonial dagger on the altar. Nothing happens, but you feel a sense of respect for the ancient rituals once performed here.");
}

#[test]
fn arrival_at_the_exit_without_the_idol_leaves_the_blocked_message() {
    let mut game = Game::new();
    go(&mut game, Direction::North);
    go(&mut game, Direction::East);
    let result = go(&mut game, Direction::North);
    let hint = "This appears to be an exit, but it's blocked. You need a golden idol to proceed.";
    assert_eq!(game.message, hint);
    assert_eq!(
        result,
        format!("[ Temple Exit ]\n\n{}\n\nExits: south\n\n{}", EXIT_TEXT, hint)
    );
    assert!(!game.is_game_over());
}

#[test]
fn arrival_at_the_exit_with_the_idol_leaves_the_open_message() {
    let mut game = Game::new();
    walk_to_exit_with_idol(&mut game);
    assert_eq!(
        game.message,
        "You've reached the exit with the golden idol! Use the item to escape."
    );
    assert!(!game.is_game_over());
}

#[test]
fn the_message_stays_after_leaving_the_exit() {
    let mut game = Game::new();
    go(&mut game, Direction::North);
    go(&mut game, Direction::East);
    go(&mut game, Direction::North);
    let result = go(&mut game, Direction::South);
    let hint = "This appears to be an exit, but it's blocked. You need a golden idol to proceed.";
    assert_eq!(
        result,
        format!("[ Treasure Room ]\n\n{}\n\nExits: west north\n\n{}", TREASURE_TEXT, hint)
    );
    assert_eq!(game.look_around(), result);
}

#[test]
fn help_changes_nothing() {
    let mut game = Game::new();
    take(&mut game, "ancient map");
    let result = game.process_command(Command::Help);
    assert_eq!(result, HELP);
    assert_eq!(result, "Available commands:\n- go [direction]: Move in the specified direction (north, east, south, west)\n- take [item]: Pick up an item\n- use [item]: Use an item from your inventory\n- look: Look around the current room\n- inventory: Check your inventory\n- help: Display this help text\n- quit: Exit the game");
    assert_eq!(game.player.location, "Entrance Hall");
    assert_eq!(game.player.inventory, vec!["ancient map".to_string()]);
    assert!(!game.is_game_over());
}

#[test]
fn quit_ends_the_game_and_changes_nothing_else() {
    let mut game = Game::new();
    take(&mut game, "ancient map");
    go(&mut game, Direction::North);
    let result = game.process_command(Command::Quit);
    assert_eq!(result, GOODBYE);
    assert_eq!(result, "Thanks for playing! Goodbye.");
    assert!(game.is_game_over());
    assert_eq!(game.player.location, "Ceremonial Antechamber");
    assert_eq!(game.player.inventory, vec!["ancient map".to_string()]);
    game.process_command(Command::Quit);
    assert!(game.is_game_over());
}

#[test]
fn unknown_command_is_answered_with_a_hint() {
    let mut game = Game::new();
    let result = game.process_command(Command::Unknown("dance".to_string()));
    assert_eq!(result, "I don't understand 'dance'.\nType 'help' for a list of commands.");
    assert_eq!(game.player.location, "Entrance Hall");
    assert!(!game.is_game_over());
}

#[test]
fn a_player_in_no_room_is_told_so() {
    let mut game = Game {
        rooms: create_rooms(),
        player: Player::new("Nowhere"),
        game_over: false,
        message: String::new(),
    };
    game.player.take_item("torch");
    assert_eq!(ROOM_NOT_FOUND, "Error: Current room not found.");
    assert_eq!(game.look_around(), ROOM_NOT_FOUND);
    assert_eq!(go(&mut game, Direction::North), ROOM_NOT_FOUND);
    assert_eq!(take(&mut game, "ancient map"), ROOM_NOT_FOUND);
    assert_eq!(use_item(&mut game, "torch"), ROOM_NOT_FOUND);
    assert_eq!(use_item(&mut game, "lamp"), "You don't have a lamp.");
    assert_eq!(game.player.location, "Nowhere");
    assert_eq!(game.player.inventory, vec!["torch".to_string()]);
    assert!(!game.is_game_over());
}

#[test]
fn an_exit_to_no_room_is_taken_and_then_told() {
    let mut game = Game::new();
    game.rooms[0].add_exit(Direction::South, "Cellar");
    let result = go(&mut game, Direction::South);
    assert_eq!(game.player.location, "Cellar");
    assert_eq!(result, ROOM_NOT_FOUND);
}

#[test]
fn describe_shows_exits_items_and_message_in_order() {
    let mut room = Room::new("Hall", "A hall.", false, None);
    assert_eq!(describe(&room, ""), "[ Hall ]\n\nA hall.\n");
    assert_eq!(describe(&room, "Hello."), "[ Hall ]\n\nA hall.\n\n\nHello.");
    room.add_exit(Direction::West, "Yard");
    room.add_exit(Direction::North, "Loft");
    room.add_item("lamp");
    room.add_item("Key");
    assert_eq!(
        describe(&room, "Hello."),
        "[ Hall ]\n\nA hall.\n\nExits: west north\n\nYou see:\n- lamp\n- Key\n\nHello."
    );
}
