use chat_gateway::protocol::ChatMessage;
use chat_gateway::protocol::ChatStateRequest;
use chat_gateway::protocol::ChatStateResponse;
use chat_gateway::protocol::ClientMessage;
use chat_gateway::protocol::ConversationSettings;
use chat_gateway::protocol::ErrorInfo;
use chat_gateway::protocol::ModelConfig;
use chat_gateway::protocol::ServerMessage;
use chat_gateway::router::continue_after_spawn;
use chat_gateway::router::continue_with_response;
use chat_gateway::router::dispatch_client_message;
use chat_gateway::router::Dispatch;
use chat_gateway::router::Pending;
use chat_gateway::state::add_connection;
use chat_gateway::state::get_active_conversation;
use chat_gateway::state::get_actor_id_for_conversation;
use chat_gateway::state::new_interface_state;
use chat_gateway::state::register_conversation_actor;
use chat_gateway::state::InterfaceState;
use genai_types::messages::MessageContent;
use genai_types::messages::Role;
use genai_types::Message;

fn user_message(text: &str) -> Message {
    Message {
        role: Role::User,
        content: vec![MessageContent::Text { text: text.to_string() }],
    }
}

fn message_text(m: &Message) -> String {
    match &m.content[0] {
        MessageContent::Text { text } => text.clone(),
        _ => panic!("expected text content"),
    }
}

fn state_with_conversation() -> InterfaceState {
    let mut state = new_interface_state("store".to_string());
    register_conversation_actor(
        &mut state,
        "conv-1".to_string(),
        "actor-1".to_string(),
        "Title".to_string(),
        10,
    );
    state
}

fn backend_error() -> ChatStateResponse {
    ChatStateResponse::Error {
        error: ErrorInfo {
            code: "E1".to_string(),
            message: "boom".to_string(),
            details: None,
        },
    }
}

fn expect_error(d: Dispatch, conversation_id: &str, code: &str) -> String {
    match d {
        Dispatch::Reply(ServerMessage::Error { conversation_id: cid, error_code, message }) => {
            assert_eq!(cid, conversation_id);
            assert_eq!(error_code, code);
            message
        }
        _ => panic!("expected an error reply"),
    }
}

#[test]
fn send_message_to_unknown_conversation_is_not_found() {
    // Dispatching send_message for an unknown conversation id yields
    // exactly one error tagged CONVERSATION_NOT_FOUND; the registry is
    // only borrowed, so it is unchanged.
    let state = new_interface_state("store".to_string());
    let d = dispatch_client_message(
        &state,
        1,
        ClientMessage::SendMessage {
            conversation_id: "conv-missing".to_string(),
            message: user_message("hi"),
        },
        b"raw",
        100,
    );
    let text = expect_error(d, "conv-missing", "CONVERSATION_NOT_FOUND");
    assert_eq!(text, "Conversation not found");
    assert_eq!(state.conversation_metadata.len(), 0);
    assert_eq!(get_actor_id_for_conversation(&state, "conv-missing"), None);
}

#[test]
fn new_conversation_spawns_then_registers() {
    // A new_conversation dispatch at timestamp 1000 first asks the host to
    // spawn an actor for the freshly minted id; completing it registers
    // the conversation, associates the connection, and confirms.
    let mut state = new_interface_state("store".to_string());
    add_connection(&mut state, 7, 999);
    let raw = br#"{"action":"new_conversation"}"#;
    let d = dispatch_client_message(&state, 7, ClientMessage::NewConversation, raw, 1000);
    let step = match d {
        Dispatch::StartActor(step) => step,
        _ => panic!("expected a spawn step"),
    };
    assert_eq!(step.connection_id, 7);
    assert_eq!(
        step.conversation_id,
        "conv-1000-88f63594baa56addabcdaa72770249e5b7b29626"
    );
    let conversation_id = step.conversation_id.clone();
    let reply = continue_after_spawn(&mut state, step, "actor-9".to_string(), 1000);
    match reply {
        ServerMessage::ConversationCreated { conversation_id: cid, message } => {
            assert_eq!(cid, conversation_id);
            assert_eq!(message, "New conversation created");
        }
        _ => panic!("expected a conversation_created reply"),
    }
    assert_eq!(
        get_actor_id_for_conversation(&state, &conversation_id),
        Some("actor-9".to_string())
    );
    assert_eq!(get_active_conversation(&state, 7), Some(conversation_id.clone()));
    assert_eq!(state.conversation_metadata.len(), 1);
    let meta = state.conversation_metadata.get(&conversation_id).unwrap().clone();
    assert_eq!(meta.title, "Conversation conv-100");
    assert_eq!(meta.message_count, 0);
    assert_eq!(meta.created_at, 1000);
}

#[test]
fn send_message_flow_reaches_add_message() {
    let state = state_with_conversation();
    let d = dispatch_client_message(
        &state,
        1,
        ClientMessage::SendMessage {
            conversation_id: "conv-1".to_string(),
            message: user_message("hello there"),
        },
        b"raw",
        100,
    );
    match d {
        Dispatch::CallActor { actor_id, request, pending } => {
            assert_eq!(actor_id, "actor-1");
            match request {
                ChatStateRequest::AddMessage { message } => {
                    assert_eq!(message_text(&message), "hello there");
                }
                _ => panic!("expected an AddMessage request"),
            }
            match pending {
                Pending::AwaitAddMessage { conversation_id, actor_id } => {
                    assert_eq!(conversation_id, "conv-1");
                    assert_eq!(actor_id, "actor-1");
                }
                _ => panic!("expected to await the AddMessage acknowledgement"),
            }
        }
        _ => panic!("expected a backend call"),
    }
}

#[test]
fn add_message_success_generates_completion() {
    let p = Pending::AwaitAddMessage {
        conversation_id: "conv-1".to_string(),
        actor_id: "actor-1".to_string(),
    };
    match continue_with_response(p, ChatStateResponse::Success) {
        Dispatch::CallActor { actor_id, request, pending } => {
            assert_eq!(actor_id, "actor-1");
            assert!(matches!(request, ChatStateRequest::GenerateCompletion));
            assert!(matches!(pending, Pending::AwaitCompletion { .. }));
        }
        _ => panic!("expected a GenerateCompletion call"),
    }
}

#[test]
fn add_message_unexpected_response_is_internal_error() {
    let p = Pending::AwaitAddMessage {
        conversation_id: "conv-1".to_string(),
        actor_id: "actor-1".to_string(),
    };
    let d = continue_with_response(p, ChatStateResponse::Head { head: None });
    let text = expect_error(d, "conv-1", "INTERNAL_ERROR");
    assert_eq!(text, "Unexpected response from chat-state actor");
}

#[test]
fn completion_head_triggers_history_follow_up() {
    // A head-shaped completion response must trigger a GetHistory round
    // trip; no reply is built from the head value itself.
    let p = Pending::AwaitCompletion {
        conversation_id: "conv-1".to_string(),
        actor_id: "actor-1".to_string(),
    };
    let d = continue_with_response(p, ChatStateResponse::Head { head: Some("m3".to_string()) });
    match d {
        Dispatch::CallActor { actor_id, request, pending } => {
            assert_eq!(actor_id, "actor-1");
            assert!(matches!(request, ChatStateRequest::GetHistory));
            match pending {
                Pending::AwaitSendHistory { conversation_id } => {
                    assert_eq!(conversation_id, "conv-1");
                }
                _ => panic!("expected to await the follow-up history"),
            }
        }
        _ => panic!("expected a GetHistory call"),
    }
}

#[test]
fn completion_list_is_replied_directly() {
    // A legacy completion-shaped response is emitted directly with no
    // follow-up call.
    let p = Pending::AwaitCompletion {
        conversation_id: "conv-1".to_string(),
        actor_id: "actor-1".to_string(),
    };
    let msgs = vec![user_message("one"), user_message("two")];
    let d = continue_with_response(p, ChatStateResponse::Completion { messages: msgs });
    match d {
        Dispatch::Reply(ServerMessage::Messages { conversation_id, messages }) => {
            assert_eq!(conversation_id, "conv-1");
            assert_eq!(messages.len(), 2);
            assert_eq!(message_text(&messages[0]), "one");
            assert_eq!(message_text(&messages[1]), "two");
        }
        _ => panic!("expected a direct messages reply"),
    }
}

#[test]
fn completion_error_is_chat_state_error() {
    let p = Pending::AwaitCompletion {
        conversation_id: "conv-1".to_string(),
        actor_id: "actor-1".to_string(),
    };
    let d = continue_with_response(p, backend_error());
    let text = expect_error(d, "conv-1", "CHAT_STATE_ERROR");
    assert_eq!(text, "Error from chat-state actor: E1: boom");
}

#[test]
fn send_history_is_flattened() {
    let p = Pending::AwaitSendHistory { conversation_id: "conv-1".to_string() };
    let history = vec![
        ChatMessage {
            id: Some("m1".to_string()),
            parent_id: None,
            message: user_message("first"),
        },
        ChatMessage {
            id: Some("m2".to_string()),
            parent_id: Some("m1".to_string()),
            message: user_message("second"),
        },
    ];
    let d = continue_with_response(p, ChatStateResponse::History { messages: history });
    match d {
        Dispatch::Reply(ServerMessage::Messages { conversation_id, messages }) => {
            assert_eq!(conversation_id, "conv-1");
            assert_eq!(messages.len(), 2);
            assert_eq!(message_text(&messages[0]), "first");
            assert_eq!(message_text(&messages[1]), "second");
        }
        _ => panic!("expected a messages reply"),
    }
}

#[test]
fn get_conversation_validates_head_then_fetches_history() {
    let state = state_with_conversation();
    let d = dispatch_client_message(
        &state,
        1,
        ClientMessage::GetConversation { conversation_id: "conv-1".to_string() },
        b"raw",
        100,
    );
    let pending = match d {
        Dispatch::CallActor { actor_id, request, pending } => {
            assert_eq!(actor_id, "actor-1");
            assert!(matches!(request, ChatStateRequest::GetHead));
            pending
        }
        _ => panic!("expected a GetHead call"),
    };
    let d = continue_with_response(pending, ChatStateResponse::Head { head: None });
    let pending = match d {
        Dispatch::CallActor { actor_id, request, pending } => {
            assert_eq!(actor_id, "actor-1");
            assert!(matches!(request, ChatStateRequest::GetHistory));
            pending
        }
        _ => panic!("expected a GetHistory call"),
    };
    let history = vec![ChatMessage {
        id: Some("m1".to_string()),
        parent_id: None,
        message: user_message("only"),
    }];
    let d = continue_with_response(pending, ChatStateResponse::History { messages: history });
    match d {
        Dispatch::Reply(ServerMessage::Conversation { conversation_id, messages }) => {
            assert_eq!(conversation_id, "conv-1");
            assert_eq!(messages.len(), 1);
            assert_eq!(message_text(&messages[0]), "only");
        }
        _ => panic!("expected a conversation reply"),
    }
}

#[test]
fn get_history_backend_error_maps_to_chat_state_error() {
    let p = Pending::AwaitHead {
        conversation_id: "conv-1".to_string(),
        actor_id: "actor-1".to_string(),
    };
    let d = continue_with_response(p, backend_error());
    let text = expect_error(d, "conv-1", "CHAT_STATE_ERROR");
    assert_eq!(text, "Error from chat-state actor: E1: boom");
}

#[test]
fn settings_round_trip() {
    let state = state_with_conversation();
    let d = dispatch_client_message(
        &state,
        1,
        ClientMessage::GetSettings { conversation_id: "conv-1".to_string() },
        b"raw",
        100,
    );
    let pending = match d {
        Dispatch::CallActor { actor_id, request, pending } => {
            assert_eq!(actor_id, "actor-1");
            assert!(matches!(request, ChatStateRequest::GetSettings));
            pending
        }
        _ => panic!("expected a GetSettings call"),
    };
    let settings = ConversationSettings {
        model_config: ModelConfig {
            model: "m".to_string(),
            provider: "p".to_string(),
        },
        temperature: None,
        max_tokens: 512,
        additional_params: None,
        system_prompt: None,
        title: "Title".to_string(),
        mcp_servers: vec![],
    };
    let d = continue_with_response(pending, ChatStateResponse::Settings { settings });
    match d {
        Dispatch::Reply(ServerMessage::Settings { conversation_id, settings }) => {
            assert_eq!(conversation_id, "conv-1");
            assert_eq!(settings.model_config.model, "m");
            assert_eq!(settings.max_tokens, 512);
        }
        _ => panic!("expected a settings reply"),
    }
}

#[test]
fn update_settings_success_is_bare_success() {
    let p = Pending::AwaitSettingsUpdate { conversation_id: "conv-1".to_string() };
    match continue_with_response(p, ChatStateResponse::Success) {
        Dispatch::Reply(ServerMessage::Success) => {}
        _ => panic!("expected a bare success reply"),
    }
}

#[test]
fn get_message_by_id_round_trip() {
    let state = state_with_conversation();
    let d = dispatch_client_message(
        &state,
        1,
        ClientMessage::GetMessageById {
            conversation_id: "conv-1".to_string(),
            message_id: "m7".to_string(),
        },
        b"raw",
        100,
    );
    let pending = match d {
        Dispatch::CallActor { actor_id, request, pending } => {
            assert_eq!(actor_id, "actor-1");
            match request {
                ChatStateRequest::GetMessage { message_id } => assert_eq!(message_id, "m7"),
                _ => panic!("expected a GetMessage request"),
            }
            pending
        }
        _ => panic!("expected a GetMessage call"),
    };
    let found = ChatMessage {
        id: Some("m7".to_string()),
        parent_id: Some("m6".to_string()),
        message: user_message("found"),
    };
    let d = continue_with_response(pending, ChatStateResponse::ChatMessage { message: found });
    match d {
        Dispatch::Reply(ServerMessage::MessageById { conversation_id, message }) => {
            assert_eq!(conversation_id, "conv-1");
            assert_eq!(message.id, Some("m7".to_string()));
            assert_eq!(message_text(&message.message), "found");
        }
        _ => panic!("expected a message_by_id reply"),
    }
}

#[test]
fn get_message_error_maps_to_message_error() {
    let p = Pending::AwaitMessage { conversation_id: "conv-1".to_string() };
    let d = continue_with_response(p, backend_error());
    let text = expect_error(d, "conv-1", "MESSAGE_ERROR");
    assert_eq!(text, "Error retrieving message: E1: boom");
}

#[test]
fn get_head_id_round_trip() {
    let state = state_with_conversation();
    let d = dispatch_client_message(
        &state,
        1,
        ClientMessage::GetHeadId { conversation_id: "conv-1".to_string() },
        b"raw",
        100,
    );
    let pending = match d {
        Dispatch::CallActor { actor_id, request, pending } => {
            assert_eq!(actor_id, "actor-1");
            assert!(matches!(request, ChatStateRequest::GetHead));
            pending
        }
        _ => panic!("expected a GetHead call"),
    };
    let d = continue_with_response(pending, ChatStateResponse::Head { head: Some("m3".to_string()) });
    match d {
        Dispatch::Reply(ServerMessage::HeadId { conversation_id, head_id }) => {
            assert_eq!(conversation_id, "conv-1");
            assert_eq!(head_id, Some("m3".to_string()));
        }
        _ => panic!("expected a head_id reply"),
    }
}

#[test]
fn get_head_id_of_empty_chain_is_none() {
    let p = Pending::AwaitHeadId { conversation_id: "conv-1".to_string() };
    let d = continue_with_response(p, ChatStateResponse::Head { head: None });
    match d {
        Dispatch::Reply(ServerMessage::HeadId { conversation_id, head_id }) => {
            assert_eq!(conversation_id, "conv-1");
            assert_eq!(head_id, None);
        }
        _ => panic!("expected a head_id reply"),
    }
}

#[test]
fn get_head_error_maps_to_head_error() {
    let p = Pending::AwaitHeadId { conversation_id: "conv-1".to_string() };
    let d = continue_with_response(p, backend_error());
    let text = expect_error(d, "conv-1", "HEAD_ERROR");
    assert_eq!(text, "Error retrieving head: E1: boom");
}

#[test]
fn list_conversations_returns_all_entries() {
    // With two registered conversations the list reply holds exactly those
    // two entries, in no guaranteed order.
    let mut state = new_interface_state("store".to_string());
    register_conversation_actor(
        &mut state,
        "conv-1".to_string(),
        "actor-1".to_string(),
        "First".to_string(),
        10,
    );
    register_conversation_actor(
        &mut state,
        "conv-2".to_string(),
        "actor-2".to_string(),
        "Second".to_string(),
        20,
    );
    let d = dispatch_client_message(&state, 1, ClientMessage::ListConversations, b"raw", 100);
    match d {
        Dispatch::Reply(ServerMessage::ConversationList { conversations }) => {
            assert_eq!(conversations.len(), 2);
            let mut ids: Vec<String> = conversations.iter().map(|(id, _)| id.clone()).collect();
            ids.sort();
            assert_eq!(ids, vec!["conv-1".to_string(), "conv-2".to_string()]);
            for (id, meta) in &conversations {
                assert_eq!(&meta.id, id);
            }
        }
        _ => panic!("expected a conversation_list reply"),
    }
}
