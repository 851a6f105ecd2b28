use chat_gateway::protocol::create_conversation_created_message;
use chat_gateway::protocol::create_conversation_renamed_message;
use chat_gateway::protocol::create_conversation_response;
use chat_gateway::protocol::create_error_message;
use chat_gateway::protocol::create_head_id_response;
use chat_gateway::protocol::create_message_by_id_response;
use chat_gateway::protocol::create_messages_response;
use chat_gateway::protocol::create_settings_updated_response;
use chat_gateway::protocol::create_success_response;
use chat_gateway::protocol::create_welcome_message;
use chat_gateway::protocol::ChatMessage;
use chat_gateway::protocol::ServerMessage;
use genai_types::messages::MessageContent;
use genai_types::messages::Role;
use genai_types::Message;

fn assistant_message(text: &str) -> Message {
    Message {
        role: Role::Assistant,
        content: vec![MessageContent::Text { text: text.to_string() }],
    }
}

#[test]
fn welcome_message_has_fixed_text() {
    match create_welcome_message() {
        ServerMessage::Welcome { message, conversation_id } => {
            assert_eq!(message, "Welcome to the chat!");
            assert_eq!(conversation_id, "");
        }
        _ => panic!("expected a welcome message"),
    }
}

#[test]
fn conversation_created_carries_id() {
    match create_conversation_created_message("conv-9") {
        ServerMessage::ConversationCreated { conversation_id, message } => {
            assert_eq!(conversation_id, "conv-9");
            assert_eq!(message, "New conversation created");
        }
        _ => panic!("expected a conversation_created message"),
    }
}

#[test]
fn error_message_carries_code_and_text() {
    match create_error_message("conv-9", "went wrong", "PARSE_ERROR") {
        ServerMessage::Error { conversation_id, error_code, message } => {
            assert_eq!(conversation_id, "conv-9");
            assert_eq!(error_code, "PARSE_ERROR");
            assert_eq!(message, "went wrong");
        }
        _ => panic!("expected an error message"),
    }
}

#[test]
fn conversation_response_keeps_messages() {
    let msgs = vec![assistant_message("a"), assistant_message("b")];
    match create_conversation_response("conv-9", msgs) {
        ServerMessage::Conversation { conversation_id, messages } => {
            assert_eq!(conversation_id, "conv-9");
            assert_eq!(messages.len(), 2);
        }
        _ => panic!("expected a conversation message"),
    }
}

#[test]
fn messages_response_keeps_messages() {
    let msgs = vec![assistant_message("a")];
    match create_messages_response("conv-9", msgs) {
        ServerMessage::Messages { conversation_id, messages } => {
            assert_eq!(conversation_id, "conv-9");
            assert_eq!(messages.len(), 1);
        }
        _ => panic!("expected a messages message"),
    }
}

#[test]
fn success_response_is_bare() {
    assert!(matches!(create_success_response(), ServerMessage::Success));
}

#[test]
fn settings_updated_has_fixed_text() {
    match create_settings_updated_response("conv-9") {
        ServerMessage::SettingsUpdated { conversation_id, message } => {
            assert_eq!(conversation_id, "conv-9");
            assert_eq!(message, "Settings updated successfully");
        }
        _ => panic!("expected a settings_updated message"),
    }
}

#[test]
fn message_by_id_response_carries_chain_ids() {
    let chain = ChatMessage {
        id: Some("m2".to_string()),
        parent_id: Some("m1".to_string()),
        message: assistant_message("x"),
    };
    match create_message_by_id_response("conv-9", chain) {
        ServerMessage::MessageById { conversation_id, message } => {
            assert_eq!(conversation_id, "conv-9");
            assert_eq!(message.id, Some("m2".to_string()));
            assert_eq!(message.parent_id, Some("m1".to_string()));
        }
        _ => panic!("expected a message_by_id message"),
    }
}

#[test]
fn head_id_response_clones_head() {
    match create_head_id_response("conv-9", &Some("m5".to_string())) {
        ServerMessage::HeadId { conversation_id, head_id } => {
            assert_eq!(conversation_id, "conv-9");
            assert_eq!(head_id, Some("m5".to_string()));
        }
        _ => panic!("expected a head_id message"),
    }
}

#[test]
fn conversation_renamed_builds_confirmation_text() {
    match create_conversation_renamed_message("conv-9", "My chat") {
        ServerMessage::ConversationRenamed { conversation_id, title, message } => {
            assert_eq!(conversation_id, "conv-9");
            assert_eq!(title, "My chat");
            assert_eq!(message, "Conversation renamed to 'My chat'");
        }
        _ => panic!("expected a conversation_renamed message"),
    }
}
