use bedrock_ws::command::help::{BedrockCommandArgument, BedrockCommandSchema};
use bedrock_ws::command::HelpCommandResponse;

#[test]
fn schema_reads_literal_required_and_optional_arguments() {
    let schema = BedrockCommandSchema::from_str("/tp <victim: target> [checkForBlocks: Boolean] now")
        .expect("a grammar line");
    assert_eq!(schema.name, "tp");
    assert_eq!(
        schema.get("victim"),
        Some(&BedrockCommandArgument::Required("target".to_string()))
    );
    assert_eq!(
        schema.get("checkForBlocks"),
        Some(&BedrockCommandArgument::Optional("Boolean".to_string()))
    );
    assert_eq!(schema.get("now"), Some(&BedrockCommandArgument::Literal));
    assert_eq!(schema.get("later"), None);
    assert_eq!(schema.arguments.len(), 3);
}

#[test]
fn schema_needs_a_space_after_the_name() {
    assert_eq!(BedrockCommandSchema::from_str("/help"), None);
    assert_eq!(BedrockCommandSchema::from_str(""), None);
}

#[test]
fn schema_rejects_a_typed_argument_without_type() {
    assert_eq!(BedrockCommandSchema::from_str("/say <message>"), None);
}

#[test]
fn schema_rejects_a_first_character_of_several_bytes() {
    assert_eq!(BedrockCommandSchema::from_str("\u{e9}say hi"), None);
}

#[test]
fn commands_of_a_page_skip_lines_without_schema() {
    let response = HelpCommandResponse {
        body: "/say <message: message>\nnot a line\n/list \n".to_string(),
        page: 1,
        page_count: 3,
    };
    let commands = response.get_commands();
    assert_eq!(commands.len(), 3);
    assert_eq!(commands[0].name, "say");
    assert_eq!(commands[1].name, "ot");
    assert_eq!(commands[2].name, "list");
    assert_eq!(commands[2].arguments.len(), 0);
}
