use portfolio_bot::command::{descriptions, parse_command, Command, CommandError};

#[test]
fn help_and_start_are_the_commands() {
    assert_eq!(parse_command("/help", "portfolio_bot"), Ok(Command::Help));
    assert_eq!(parse_command("/start", "portfolio_bot"), Ok(Command::Start));
}

#[test]
fn what_follows_the_first_space_is_ignored() {
    assert_eq!(parse_command("/start now, please", "bot"), Ok(Command::Start));
    assert_eq!(parse_command("/help ", "bot"), Ok(Command::Help));
    assert_eq!(parse_command("/help @other", "bot"), Ok(Command::Help));
}

#[test]
fn a_command_may_name_the_bot_in_any_case() {
    assert_eq!(parse_command("/help@Portfolio_Bot", "portfolio_bot"), Ok(Command::Help));
    assert_eq!(parse_command("/start@BOT rest", "bot"), Ok(Command::Start));
}

#[test]
fn a_command_for_another_bot_is_refused() {
    assert_eq!(
        parse_command("/help@other_bot", "portfolio_bot"),
        Err(CommandError::WrongBotName("other_bot".to_string()))
    );
    assert_eq!(
        parse_command("/nothing@other_bot", "portfolio_bot"),
        Err(CommandError::WrongBotName("other_bot".to_string()))
    );
    assert_eq!(parse_command("/help@", "bot"), Err(CommandError::WrongBotName(String::new())));
}

#[test]
fn only_the_first_name_after_the_command_counts() {
    assert_eq!(parse_command("/help@bot@other", "bot"), Ok(Command::Help));
    assert_eq!(
        parse_command("/help@other@bot", "bot"),
        Err(CommandError::WrongBotName("other".to_string()))
    );
}

#[test]
fn an_empty_name_matches_a_bot_without_one() {
    assert_eq!(parse_command("/start@", ""), Ok(Command::Start));
}

#[test]
fn bot_names_outside_ascii_are_compared_exactly() {
    assert_eq!(parse_command("/help@bót", "bót"), Ok(Command::Help));
    assert_eq!(
        parse_command("/help@bÓt", "bót"),
        Err(CommandError::WrongBotName("bÓt".to_string()))
    );
}

#[test]
fn commands_are_compared_exactly() {
    assert_eq!(
        parse_command("/Start", "bot"),
        Err(CommandError::UnknownCommand("/Start".to_string()))
    );
    assert_eq!(
        parse_command("/helpme", "bot"),
        Err(CommandError::UnknownCommand("/helpme".to_string()))
    );
    assert_eq!(parse_command("help", "bot"), Err(CommandError::UnknownCommand("help".to_string())));
    assert_eq!(
        parse_command(" /help", "bot"),
        Err(CommandError::UnknownCommand(String::new()))
    );
}

#[test]
fn only_a_space_ends_the_command() {
    assert_eq!(
        parse_command("/help\nplease", "bot"),
        Err(CommandError::UnknownCommand("/help\nplease".to_string()))
    );
    assert_eq!(
        parse_command("/help\tplease", "bot"),
        Err(CommandError::UnknownCommand("/help\tplease".to_string()))
    );
}

#[test]
fn plain_text_is_no_command() {
    assert_eq!(
        parse_command("hello there", "bot"),
        Err(CommandError::UnknownCommand("hello".to_string()))
    );
    assert_eq!(parse_command("", "bot"), Err(CommandError::UnknownCommand(String::new())));
    assert_eq!(
        parse_command("olá, tudo bem?", "bot"),
        Err(CommandError::UnknownCommand("olá,".to_string()))
    );
}

#[test]
fn the_names_and_descriptions_of_the_commands() {
    assert_eq!(Command::Help.as_str(), "help");
    assert_eq!(Command::Start.as_str(), "start");
    assert_eq!(Command::Help.description_str(), "Display this text");
    assert_eq!(Command::Start.description_str(), "Show the main menu");
}

#[test]
fn the_list_of_commands_has_a_line_for_each() {
    assert_eq!(descriptions(), "/help — Display this text\n/start — Show the main menu");
    assert_eq!(descriptions().lines().count(), 2);
}
