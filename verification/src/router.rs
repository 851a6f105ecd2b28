//! The dispatcher: the state machine that interprets one inbound client
//! action, asks the host to perform backend round trips, and produces
//! exactly one outbound reply.
//!
//! The gateway performs no I/O itself, so a dispatch is a sequence of
//! steps. [`dispatch_client_message`] inspects the action and either
//! replies at once or hands the host an action to perform: spawn a backend
//! actor, or send one request to an actor and wait for its response. The
//! host feeds the outcome back through [`continue_after_spawn`] or
//! [`continue_with_response`], which yields the next step. Every request
//! has exactly one legal set of response variants; any other shape is
//! answered with an internal-error reply.

use vstd::prelude::*;
use crate::ids::conversation_id_of;
use crate::ids::generate_conversation_id;
use crate::protocol::ChatStateRequest;
use crate::protocol::ChatStateResponse;
use crate::protocol::ClientMessage;
use crate::protocol::ConversationMetadata;
use crate::protocol::ErrorInfo;
use crate::protocol::ServerMessage;
use crate::protocol::create_conversation_created_message;
use crate::protocol::create_conversation_response;
use crate::protocol::create_error_message;
use crate::protocol::create_head_id_response;
use crate::protocol::create_message_by_id_response;
use crate::protocol::create_messages_response;
use crate::protocol::create_settings_response;
use crate::protocol::create_success_response;
use crate::protocol::is_conversation;
use crate::protocol::is_conversation_created;
use crate::protocol::is_error;
use crate::protocol::is_head_id;
use crate::protocol::is_message_by_id;
use crate::protocol::is_messages;
use crate::protocol::is_settings;
use crate::protocol::ChatMessage;
use crate::state::InterfaceState;
use crate::state::lists_metadata;
use crate::state::register_conversation_actor;
use crate::state::set_active_conversation;
use crate::state::get_actor_id_for_conversation;
use crate::state::fresh_metadata;
use crate::state::with_active_conversation;

verus! {

/// What the dispatcher is waiting for after sending a backend request:
/// which flow is in progress, for which conversation, and — where a
/// follow-up request may be needed — which actor serves it.
pub enum Pending {
    /// Send-message flow, waiting for the AddMessage acknowledgement.
    AwaitAddMessage { conversation_id: String, actor_id: String },
    /// Send-message flow, waiting for the GenerateCompletion response.
    AwaitCompletion { conversation_id: String, actor_id: String },
    /// Send-message flow, waiting for the follow-up history.
    AwaitSendHistory { conversation_id: String },
    /// History flow, waiting for the head that validates the chain.
    AwaitHead { conversation_id: String, actor_id: String },
    /// History flow, waiting for the history itself.
    AwaitGetHistory { conversation_id: String },
    /// Waiting for the conversation's settings.
    AwaitSettings { conversation_id: String },
    /// Waiting for the settings-update acknowledgement.
    AwaitSettingsUpdate { conversation_id: String },
    /// Waiting for a single message fetched by id.
    AwaitMessage { conversation_id: String },
    /// Waiting for the chain's head id.
    AwaitHeadId { conversation_id: String },
}

/// A request to spawn a backend actor for a fresh conversation; the
/// connection that asked for it is recorded so it can be associated once
/// the actor exists.
pub struct SpawnStep {
    pub conversation_id: String,
    pub connection_id: u64,
}

/// One step of a dispatch: either the outbound reply, or an action the
/// host must perform before the dispatch can continue.
pub enum Dispatch {
    /// The dispatch is complete; send this to the client.
    Reply(ServerMessage),
    /// Spawn a backend actor, then continue with [`continue_after_spawn`].
    StartActor(SpawnStep),
    /// Send `request` to `actor_id`, then continue with
    /// [`continue_with_response`].
    CallActor { actor_id: String, request: ChatStateRequest, pending: Pending },
}

/// Chain messages flattened to plain messages: the chain metadata is
/// discarded and each inner message kept, in order.
pub open spec fn flattened(msgs: Seq<ChatMessage>) -> Seq<genai_types::Message> {
    msgs.map_values(|m: ChatMessage| m.message)
}

/// The text of an error reply that carries a backend-reported error.
pub open spec fn backend_error_text(prefix: Seq<char>, e: ErrorInfo) -> Seq<char> {
    prefix + e.code@ + ": "@ + e.message@
}

/// An error reply built from a backend-reported error.
pub open spec fn is_backend_error(
    m: ServerMessage,
    cid: Seq<char>,
    code: Seq<char>,
    prefix: Seq<char>,
    e: ErrorInfo,
) -> bool {
    is_error(m, cid, code, backend_error_text(prefix, e))
}

/// A reply that a conversation id resolved to no backend actor.
pub open spec fn is_not_found_error(m: ServerMessage, cid: Seq<char>) -> bool {
    is_error(m, cid, "CONVERSATION_NOT_FOUND"@, "Conversation not found"@)
}

/// The first step the dispatcher takes for an inbound action, given the
/// current registry. Read together with [`resume_spec`], this is the whole
/// routing table of the gateway.
pub open spec fn dispatch_spec(
    state: InterfaceState,
    connection_id: u64,
    message: ClientMessage,
    raw: Seq<u8>,
    now: u64,
    d: Dispatch,
) -> bool {
    match message {
        ClientMessage::NewConversation => {
            &&& d matches Dispatch::StartActor(step)
            &&& step.conversation_id@ == conversation_id_of(raw, now)
            &&& step.connection_id == connection_id
        },
        ClientMessage::SendMessage { conversation_id, message } => {
            if state.conversation_actors@.contains_key(conversation_id@) {
                &&& d matches Dispatch::CallActor { actor_id, request, pending }
                &&& actor_id == state.conversation_actors@[conversation_id@]
                &&& request matches ChatStateRequest::AddMessage { message: m } && m == message
                &&& pending matches Pending::AwaitAddMessage {
                    conversation_id: cid,
                    actor_id: aid,
                } && cid == conversation_id && aid == actor_id
            } else {
                d matches Dispatch::Reply(r) && is_not_found_error(r, conversation_id@)
            }
        },
        ClientMessage::ListConversations => {
            &&& d matches Dispatch::Reply(r)
            &&& r matches ServerMessage::ConversationList { conversations }
            &&& lists_metadata(conversations@, state.conversation_metadata@)
        },
        ClientMessage::GetConversation { conversation_id } => {
            if state.conversation_actors@.contains_key(conversation_id@) {
                &&& d matches Dispatch::CallActor { actor_id, request, pending }
                &&& actor_id == state.conversation_actors@[conversation_id@]
                &&& request is GetHead
                &&& pending matches Pending::AwaitHead { conversation_id: cid, actor_id: aid }
                    && cid == conversation_id && aid == actor_id
            } else {
                d matches Dispatch::Reply(r) && is_not_found_error(r, conversation_id@)
            }
        },
        ClientMessage::UpdateSettings { conversation_id, settings } => {
            if state.conversation_actors@.contains_key(conversation_id@) {
                &&& d matches Dispatch::CallActor { actor_id, request, pending }
                &&& actor_id == state.conversation_actors@[conversation_id@]
                &&& request matches ChatStateRequest::UpdateSettings { settings: s } && s
                    == settings
                &&& pending matches Pending::AwaitSettingsUpdate { conversation_id: cid } && cid
                    == conversation_id
            } else {
                d matches Dispatch::Reply(r) && is_not_found_error(r, conversation_id@)
            }
        },
        ClientMessage::GetSettings { conversation_id } => {
            if state.conversation_actors@.contains_key(conversation_id@) {
                &&& d matches Dispatch::CallActor { actor_id, request, pending }
                &&& actor_id == state.conversation_actors@[conversation_id@]
                &&& request is GetSettings
                &&& pending matches Pending::AwaitSettings { conversation_id: cid } && cid
                    == conversation_id
            } else {
                d matches Dispatch::Reply(r) && is_not_found_error(r, conversation_id@)
            }
        },
        ClientMessage::GetMessageById { conversation_id, message_id } => {
            if state.conversation_actors@.contains_key(conversation_id@) {
                &&& d matches Dispatch::CallActor { actor_id, request, pending }
                &&& actor_id == state.conversation_actors@[conversation_id@]
                &&& request matches ChatStateRequest::GetMessage { message_id: mid } && mid
                    == message_id
                &&& pending matches Pending::AwaitMessage { conversation_id: cid } && cid
                    == conversation_id
            } else {
                d matches Dispatch::Reply(r) && is_not_found_error(r, conversation_id@)
            }
        },
        ClientMessage::GetHeadId { conversation_id } => {
            if state.conversation_actors@.contains_key(conversation_id@) {
                &&& d matches Dispatch::CallActor { actor_id, request, pending }
                &&& actor_id == state.conversation_actors@[conversation_id@]
                &&& request is GetHead
                &&& pending matches Pending::AwaitHeadId { conversation_id: cid } && cid
                    == conversation_id
            } else {
                d matches Dispatch::Reply(r) && is_not_found_error(r, conversation_id@)
            }
        },
    }
}

/// The step taken when a backend response arrives, given what was awaited.
/// For the send-message and history flows a `Head` response triggers the
/// follow-up `GetHistory` round trip; a `Completion` response is final.
pub open spec fn resume_spec(pending: Pending, response: ChatStateResponse, d: Dispatch) -> bool {
    match pending {
        Pending::AwaitAddMessage { conversation_id, actor_id } => {
            match response {
                ChatStateResponse::Success => {
                    &&& d matches Dispatch::CallActor { actor_id: aid, request, pending: p }
                    &&& aid == actor_id
                    &&& request is GenerateCompletion
                    &&& p matches Pending::AwaitCompletion { conversation_id: cid, actor_id: aid2 }
                        && cid == conversation_id && aid2 == actor_id
                },
                _ => d matches Dispatch::Reply(r) && is_error(
                    r,
                    conversation_id@,
                    "INTERNAL_ERROR"@,
                    "Unexpected response from chat-state actor"@,
                ),
            }
        },
        Pending::AwaitCompletion { conversation_id, actor_id } => {
            match response {
                ChatStateResponse::Head { head } => {
                    &&& d matches Dispatch::CallActor { actor_id: aid, request, pending: p }
                    &&& aid == actor_id
                    &&& request is GetHistory
                    &&& p matches Pending::AwaitSendHistory { conversation_id: cid } && cid
                        == conversation_id
                },
                ChatStateResponse::Completion { messages } => {
                    d matches Dispatch::Reply(r) && is_messages(r, conversation_id@, messages@)
                },
                ChatStateResponse::Error { error } => {
                    d matches Dispatch::Reply(r) && is_backend_error(
                        r,
                        conversation_id@,
                        "CHAT_STATE_ERROR"@,
                        "Error from chat-state actor: "@,
                        error,
                    )
                },
                _ => d matches Dispatch::Reply(r) && is_error(
                    r,
                    conversation_id@,
                    "INTERNAL_ERROR"@,
                    "Unexpected response from chat-state actor"@,
                ),
            }
        },
        Pending::AwaitSendHistory { conversation_id } => {
            match response {
                ChatStateResponse::History { messages } => {
                    d matches Dispatch::Reply(r) && is_messages(
                        r,
                        conversation_id@,
                        flattened(messages@),
                    )
                },
                ChatStateResponse::Error { error } => {
                    d matches Dispatch::Reply(r) && is_backend_error(
                        r,
                        conversation_id@,
                        "CHAT_STATE_ERROR"@,
                        "Error from chat-state actor: "@,
                        error,
                    )
                },
                _ => d matches Dispatch::Reply(r) && is_error(
                    r,
                    conversation_id@,
                    "INTERNAL_ERROR"@,
                    "Unexpected response when retrieving message history"@,
                ),
            }
        },
        Pending::AwaitHead { conversation_id, actor_id } => {
            match response {
                ChatStateResponse::Head { head } => {
                    &&& d matches Dispatch::CallActor { actor_id: aid, request, pending: p }
                    &&& aid == actor_id
                    &&& request is GetHistory
                    &&& p matches Pending::AwaitGetHistory { conversation_id: cid } && cid
                        == conversation_id
                },
                ChatStateResponse::Error { error } => {
                    d matches Dispatch::Reply(r) && is_backend_error(
                        r,
                        conversation_id@,
                        "CHAT_STATE_ERROR"@,
                        "Error from chat-state actor: "@,
                        error,
                    )
                },
                _ => d matches Dispatch::Reply(r) && is_error(
                    r,
                    conversation_id@,
                    "INTERNAL_ERROR"@,
                    "Unexpected response from chat-state actor"@,
                ),
            }
        },
        Pending::AwaitGetHistory { conversation_id } => {
            match response {
                ChatStateResponse::History { messages } => {
                    d matches Dispatch::Reply(r) && is_conversation(
                        r,
                        conversation_id@,
                        flattened(messages@),
                    )
                },
                ChatStateResponse::Error { error } => {
                    d matches Dispatch::Reply(r) && is_backend_error(
                        r,
                        conversation_id@,
                        "CHAT_STATE_ERROR"@,
                        "Error from chat-state actor: "@,
                        error,
                    )
                },
                _ => d matches Dispatch::Reply(r) && is_error(
                    r,
                    conversation_id@,
                    "INTERNAL_ERROR"@,
                    "Unexpected response when retrieving message history"@,
                ),
            }
        },
        Pending::AwaitSettings { conversation_id } => {
            match response {
                ChatStateResponse::Settings { settings } => {
                    d matches Dispatch::Reply(r) && is_settings(r, conversation_id@, settings)
                },
                ChatStateResponse::Error { error } => {
                    d matches Dispatch::Reply(r) && is_backend_error(
                        r,
                        conversation_id@,
                        "CHAT_STATE_ERROR"@,
                        "Error from chat-state actor: "@,
                        error,
                    )
                },
                _ => d matches Dispatch::Reply(r) && is_error(
                    r,
                    conversation_id@,
                    "INTERNAL_ERROR"@,
                    "Unexpected response from chat-state actor"@,
                ),
            }
        },
        Pending::AwaitSettingsUpdate { conversation_id } => {
            match response {
                ChatStateResponse::Success => d matches Dispatch::Reply(r) && r is Success,
                ChatStateResponse::Error { error } => {
                    d matches Dispatch::Reply(r) && is_backend_error(
                        r,
                        conversation_id@,
                        "CHAT_STATE_ERROR"@,
                        "Error from chat-state actor: "@,
                        error,
                    )
                },
                _ => d matches Dispatch::Reply(r) && is_error(
                    r,
                    conversation_id@,
                    "INTERNAL_ERROR"@,
                    "Unexpected response from chat-state actor"@,
                ),
            }
        },
        Pending::AwaitMessage { conversation_id } => {
            match response {
                ChatStateResponse::ChatMessage { message } => {
                    d matches Dispatch::Reply(r) && is_message_by_id(r, conversation_id@, message)
                },
                ChatStateResponse::Error { error } => {
                    d matches Dispatch::Reply(r) && is_backend_error(
                        r,
                        conversation_id@,
                        "MESSAGE_ERROR"@,
                        "Error retrieving message: "@,
                        error,
                    )
                },
                _ => d matches Dispatch::Reply(r) && is_error(
                    r,
                    conversation_id@,
                    "INTERNAL_ERROR"@,
                    "Unexpected response when retrieving message"@,
                ),
            }
        },
        Pending::AwaitHeadId { conversation_id } => {
            match response {
                ChatStateResponse::Head { head } => {
                    d matches Dispatch::Reply(r) && is_head_id(
                        r,
                        conversation_id@,
                        match head {
                            Some(h) => Some(h@),
                            None => None,
                        },
                    )
                },
                ChatStateResponse::Error { error } => {
                    d matches Dispatch::Reply(r) && is_backend_error(
                        r,
                        conversation_id@,
                        "HEAD_ERROR"@,
                        "Error retrieving head: "@,
                        error,
                    )
                },
                _ => d matches Dispatch::Reply(r) && is_error(
                    r,
                    conversation_id@,
                    "INTERNAL_ERROR"@,
                    "Unexpected response when retrieving head"@,
                ),
            }
        },
    }
}

/// The error reply for a conversation id with no registered backend actor.
fn not_found_reply(conversation_id: &str) -> (m: ServerMessage)
    ensures
        is_not_found_error(m, conversation_id@),
{
    create_error_message(conversation_id, "Conversation not found", "CONVERSATION_NOT_FOUND")
}

/// The error reply that carries a backend-reported error.
fn backend_error_reply(conversation_id: &str, code: &str, prefix: &str, error: &ErrorInfo) -> (m:
    ServerMessage)
    ensures
        is_backend_error(m, conversation_id@, code@, prefix@, *error),
{
    let mut text = prefix.to_owned();
    text.append(error.code.as_str());
    text.append(": ");
    text.append(error.message.as_str());
    create_error_message(conversation_id, text.as_str(), code)
}

/// Discard the chain metadata of each history entry, keeping the messages
/// in order.
fn flatten_chain_messages(messages: Vec<ChatMessage>) -> (r: Vec<genai_types::Message>)
    ensures
        r@ == flattened(messages@),
{
    let ghost orig = messages@;
    let mut rest = messages;
    let mut r: Vec<genai_types::Message> = Vec::new();
    while rest.len() > 0
        invariant
            r@.len() + rest@.len() == orig.len(),
            orig =~= orig.subrange(0, r@.len() as int) + rest@,
            r@ == flattened(orig.subrange(0, r@.len() as int)),
        decreases rest@.len(),
    {
        let ghost done = r@.len() as int;
        let ghost pre_rest = rest@;
        let m = rest.remove(0);
        proof {
            assert(pre_rest[0] == m);
            assert(orig[done] == m);
            assert(orig.subrange(0, done + 1) =~= orig.subrange(0, done).push(m));
            assert(flattened(orig.subrange(0, done).push(m)) =~= flattened(
                orig.subrange(0, done),
            ).push(m.message));
            assert(orig =~= orig.subrange(0, done + 1) + rest@);
        }
        r.push(m.message);
    }
    proof {
        assert(orig.subrange(0, orig.len() as int) =~= orig);
    }
    r
}

/// Interpret one inbound client action against the current registry. The
/// registry is only read: any mutation belongs to the spawn continuation.
/// An action that names a conversation with no registered backend actor is
/// answered with a `CONVERSATION_NOT_FOUND` error before any backend call.
pub fn dispatch_client_message(
    state: &InterfaceState,
    connection_id: u64,
    message: ClientMessage,
    raw: &[u8],
    now: u64,
) -> (d: Dispatch)
    requires
        state.conversation_metadata.wf(),
    ensures
        dispatch_spec(*state, connection_id, message, raw@, now, d),
        d matches Dispatch::StartActor(step) ==> step.conversation_id@.len() >= 47,
{
    match message {
        ClientMessage::NewConversation => {
            let conversation_id = generate_conversation_id(raw, now);
            Dispatch::StartActor(SpawnStep { conversation_id, connection_id })
        },
        ClientMessage::SendMessage { conversation_id, message } => {
            match get_actor_id_for_conversation(state, conversation_id.as_str()) {
                Some(actor_id) => {
                    let pending = Pending::AwaitAddMessage {
                        conversation_id,
                        actor_id: actor_id.clone(),
                    };
                    Dispatch::CallActor {
                        actor_id,
                        request: ChatStateRequest::AddMessage { message },
                        pending,
                    }
                },
                None => Dispatch::Reply(not_found_reply(conversation_id.as_str())),
            }
        },
        ClientMessage::ListConversations => {
            let conversations = state.conversation_metadata.to_entries();
            Dispatch::Reply(ServerMessage::ConversationList { conversations })
        },
        ClientMessage::GetConversation { conversation_id } => {
            match get_actor_id_for_conversation(state, conversation_id.as_str()) {
                Some(actor_id) => {
                    let pending = Pending::AwaitHead {
                        conversation_id,
                        actor_id: actor_id.clone(),
                    };
                    Dispatch::CallActor {
                        actor_id,
                        request: ChatStateRequest::GetHead,
                        pending,
                    }
                },
                None => Dispatch::Reply(not_found_reply(conversation_id.as_str())),
            }
        },
        ClientMessage::UpdateSettings { conversation_id, settings } => {
            match get_actor_id_for_conversation(state, conversation_id.as_str()) {
                Some(actor_id) => Dispatch::CallActor {
                    actor_id,
                    request: ChatStateRequest::UpdateSettings { settings },
                    pending: Pending::AwaitSettingsUpdate { conversation_id },
                },
                None => Dispatch::Reply(not_found_reply(conversation_id.as_str())),
            }
        },
        ClientMessage::GetSettings { conversation_id } => {
            match get_actor_id_for_conversation(state, conversation_id.as_str()) {
                Some(actor_id) => Dispatch::CallActor {
                    actor_id,
                    request: ChatStateRequest::GetSettings,
                    pending: Pending::AwaitSettings { conversation_id },
                },
                None => Dispatch::Reply(not_found_reply(conversation_id.as_str())),
            }
        },
        ClientMessage::GetMessageById { conversation_id, message_id } => {
            match get_actor_id_for_conversation(state, conversation_id.as_str()) {
                Some(actor_id) => Dispatch::CallActor {
                    actor_id,
                    request: ChatStateRequest::GetMessage { message_id },
                    pending: Pending::AwaitMessage { conversation_id },
                },
                None => Dispatch::Reply(not_found_reply(conversation_id.as_str())),
            }
        },
        ClientMessage::GetHeadId { conversation_id } => {
            match get_actor_id_for_conversation(state, conversation_id.as_str()) {
                Some(actor_id) => Dispatch::CallActor {
                    actor_id,
                    request: ChatStateRequest::GetHead,
                    pending: Pending::AwaitHeadId { conversation_id },
                },
                None => Dispatch::Reply(not_found_reply(conversation_id.as_str())),
            }
        },
    }
}

/// The metadata record a completed new-conversation dispatch creates: a
/// fresh record whose default title is derived from the first eight
/// characters of the id.
pub open spec fn created_metadata(m: ConversationMetadata, id: String, now: u64) -> bool {
    &&& m == fresh_metadata(id, m.title, now)
    &&& m.title@ == "Conversation "@ + id@.subrange(0, 8)
}

/// Complete a new-conversation dispatch once the host has spawned the
/// backend actor: associate the requesting connection with the new
/// conversation (if that connection is still known), register the actor
/// binding together with a fresh metadata record, and confirm to the
/// client.
pub fn continue_after_spawn(
    state: &mut InterfaceState,
    step: SpawnStep,
    actor_id: String,
    now: u64,
) -> (reply: ServerMessage)
    requires
        old(state).conversation_metadata.wf(),
        step.conversation_id@.len() >= 8,
    ensures
        final(state).conversation_metadata.wf(),
        is_conversation_created(reply, step.conversation_id@, "New conversation created"@),
        final(state).conversation_actors@ == old(state).conversation_actors@.insert(
            step.conversation_id@,
            actor_id,
        ),
        final(state).conversation_metadata@ == old(state).conversation_metadata@.insert(
            step.conversation_id@,
            final(state).conversation_metadata@[step.conversation_id@],
        ),
        created_metadata(
            final(state).conversation_metadata@[step.conversation_id@],
            step.conversation_id,
            now,
        ),
        old(state).connections@.contains_key(step.connection_id)
            ==> final(state).connections@ == old(state).connections@.insert(
            step.connection_id,
            with_active_conversation(
                old(state).connections@[step.connection_id],
                step.conversation_id,
                now,
            ),
        ),
        !old(state).connections@.contains_key(step.connection_id) ==> final(state).connections@
            == old(state).connections@,
        final(state).server_config == old(state).server_config,
        final(state).store_id == old(state).store_id,
        old(state).wf() ==> final(state).wf(),
{
    let SpawnStep { conversation_id, connection_id } = step;
    let _was_known = set_active_conversation(state, connection_id, conversation_id.clone(), now);
    let mut title = "Conversation ".to_owned();
    title.append(conversation_id.as_str().substring_char(0, 8));
    register_conversation_actor(state, conversation_id.clone(), actor_id, title, now);
    create_conversation_created_message(conversation_id.as_str())
}

/// Interpret one backend response against what the dispatcher was waiting
/// for. This is a pure reconciliation step: the registry is not involved.
pub fn continue_with_response(pending: Pending, response: ChatStateResponse) -> (d: Dispatch)
    ensures
        resume_spec(pending, response, d),
{
    match pending {
        Pending::AwaitAddMessage { conversation_id, actor_id } => {
            match response {
                ChatStateResponse::Success => {
                    let pending = Pending::AwaitCompletion {
                        conversation_id,
                        actor_id: actor_id.clone(),
                    };
                    Dispatch::CallActor {
                        actor_id,
                        request: ChatStateRequest::GenerateCompletion,
                        pending,
                    }
                },
                _ => Dispatch::Reply(
                    create_error_message(
                        conversation_id.as_str(),
                        "Unexpected response from chat-state actor",
                        "INTERNAL_ERROR",
                    ),
                ),
            }
        },
        Pending::AwaitCompletion { conversation_id, actor_id } => {
            match response {
                ChatStateResponse::Head { head: _ } => {
                    let pending = Pending::AwaitSendHistory { conversation_id };
                    Dispatch::CallActor {
                        actor_id,
                        request: ChatStateRequest::GetHistory,
                        pending,
                    }
                },
                ChatStateResponse::Completion { messages } => {
                    Dispatch::Reply(create_messages_response(conversation_id.as_str(), messages))
                },
                ChatStateResponse::Error { error } => {
                    Dispatch::Reply(
                        backend_error_reply(
                            conversation_id.as_str(),
                            "CHAT_STATE_ERROR",
                            "Error from chat-state actor: ",
                            &error,
                        ),
                    )
                },
                _ => Dispatch::Reply(
                    create_error_message(
                        conversation_id.as_str(),
                        "Unexpected response from chat-state actor",
                        "INTERNAL_ERROR",
                    ),
                ),
            }
        },
        Pending::AwaitSendHistory { conversation_id } => {
            match response {
                ChatStateResponse::History { messages } => {
                    let client_messages = flatten_chain_messages(messages);
                    Dispatch::Reply(
                        create_messages_response(conversation_id.as_str(), client_messages),
                    )
                },
                ChatStateResponse::Error { error } => {
                    Dispatch::Reply(
                        backend_error_reply(
                            conversation_id.as_str(),
                            "CHAT_STATE_ERROR",
                            "Error from chat-state actor: ",
                            &error,
                        ),
                    )
                },
                _ => Dispatch::Reply(
                    create_error_message(
                        conversation_id.as_str(),
                        "Unexpected response when retrieving message history",
                        "INTERNAL_ERROR",
                    ),
                ),
            }
        },
        Pending::AwaitHead { conversation_id, actor_id } => {
            match response {
                ChatStateResponse::Head { head: _ } => {
                    let pending = Pending::AwaitGetHistory { conversation_id };
                    Dispatch::CallActor {
                        actor_id,
                        request: ChatStateRequest::GetHistory,
                        pending,
                    }
                },
                ChatStateResponse::Error { error } => {
                    Dispatch::Reply(
                        backend_error_reply(
                            conversation_id.as_str(),
                            "CHAT_STATE_ERROR",
                            "Error from chat-state actor: ",
                            &error,
                        ),
                    )
                },
                _ => Dispatch::Reply(
                    create_error_message(
                        conversation_id.as_str(),
                        "Unexpected response from chat-state actor",
                        "INTERNAL_ERROR",
                    ),
                ),
            }
        },
        Pending::AwaitGetHistory { conversation_id } => {
            match response {
                ChatStateResponse::History { messages } => {
                    let client_messages = flatten_chain_messages(messages);
                    Dispatch::Reply(
                        create_conversation_response(conversation_id.as_str(), client_messages),
                    )
                },
                ChatStateResponse::Error { error } => {
                    Dispatch::Reply(
                        backend_error_reply(
                            conversation_id.as_str(),
                            "CHAT_STATE_ERROR",
                            "Error from chat-state actor: ",
                            &error,
                        ),
                    )
                },
                _ => Dispatch::Reply(
                    create_error_message(
                        conversation_id.as_str(),
                        "Unexpected response when retrieving message history",
                        "INTERNAL_ERROR",
                    ),
                ),
            }
        },
        Pending::AwaitSettings { conversation_id } => {
            match response {
                ChatStateResponse::Settings { settings } => {
                    Dispatch::Reply(create_settings_response(conversation_id.as_str(), settings))
                },
                ChatStateResponse::Error { error } => {
                    Dispatch::Reply(
                        backend_error_reply(
                            conversation_id.as_str(),
                            "CHAT_STATE_ERROR",
                            "Error from chat-state actor: ",
                            &error,
                        ),
                    )
                },
                _ => Dispatch::Reply(
                    create_error_message(
                        conversation_id.as_str(),
                        "Unexpected response from chat-state actor",
                        "INTERNAL_ERROR",
                    ),
                ),
            }
        },
        Pending::AwaitSettingsUpdate { conversation_id } => {
            match response {
                ChatStateResponse::Success => Dispatch::Reply(create_success_response()),
                ChatStateResponse::Error { error } => {
                    Dispatch::Reply(
                        backend_error_reply(
                            conversation_id.as_str(),
                            "CHAT_STATE_ERROR",
                            "Error from chat-state actor: ",
                            &error,
                        ),
                    )
                },
                _ => Dispatch::Reply(
                    create_error_message(
                        conversation_id.as_str(),
                        "Unexpected response from chat-state actor",
                        "INTERNAL_ERROR",
                    ),
                ),
            }
        },
        Pending::AwaitMessage { conversation_id } => {
            match response {
                ChatStateResponse::ChatMessage { message } => {
                    Dispatch::Reply(
                        create_message_by_id_response(conversation_id.as_str(), message),
                    )
                },
                ChatStateResponse::Error { error } => {
                    Dispatch::Reply(
                        backend_error_reply(
                            conversation_id.as_str(),
                            "MESSAGE_ERROR",
                            "Error retrieving message: ",
                            &error,
                        ),
                    )
                },
                _ => Dispatch::Reply(
                    create_error_message(
                        conversation_id.as_str(),
                        "Unexpected response when retrieving message",
                        "INTERNAL_ERROR",
                    ),
                ),
            }
        },
        Pending::AwaitHeadId { conversation_id } => {
            match response {
                ChatStateResponse::Head { head } => {
                    Dispatch::Reply(create_head_id_response(conversation_id.as_str(), &head))
                },
                ChatStateResponse::Error { error } => {
                    Dispatch::Reply(
                        backend_error_reply(
                            conversation_id.as_str(),
                            "HEAD_ERROR",
                            "Error retrieving head: ",
                            &error,
                        ),
                    )
                },
                _ => Dispatch::Reply(
                    create_error_message(
                        conversation_id.as_str(),
                        "Unexpected response when retrieving head",
                        "INTERNAL_ERROR",
                    ),
                ),
            }
        },
    }
}

} // verus!
