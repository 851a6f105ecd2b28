//! Wire protocol spoken by the gateway: the client-facing message envelope,
//! the backend-actor envelope, and pure constructors for every outbound
//! server message.
//!
//! Payloads owned by other layers (a chat message's content, a tool
//! definition, free-form model parameters) are carried through the gateway
//! without inspection, so they appear here as opaque outside types.

use vstd::prelude::*;

verus! {

/// Relies on `genai_types::Message`: a chat message, carried through the
/// gateway opaquely. The router moves whole messages between envelopes and
/// never reads their fields.
#[verifier::external_type_specification]
#[verifier::external_body]
pub struct ExMessage(genai_types::Message);

/// Relies on `mcp_protocol::tool::Tool`: a tool definition, appearing only
/// inside conversation settings, which the gateway forwards unchanged.
#[verifier::external_type_specification]
#[verifier::external_body]
pub struct ExTool(mcp_protocol::tool::Tool);

/// Relies on `serde_json::Value`: free-form model parameters and the
/// numeric sampling temperature, carried through unchanged.
#[verifier::external_type_specification]
#[verifier::external_body]
pub struct ExJsonValue(serde_json::Value);

/// Inbound client actions. The set is closed: an inbound payload carrying
/// any other action fails to decode and is answered with a parse error.
pub enum ClientMessage {
    /// Create a new conversation.
    NewConversation,
    /// Append a message to a conversation and generate a completion.
    SendMessage { conversation_id: String, message: genai_types::Message },
    /// List all conversations known to the registry.
    ListConversations,
    /// Get the full message history of a conversation.
    GetConversation { conversation_id: String },
    /// Replace a conversation's settings.
    UpdateSettings { conversation_id: String, settings: ConversationSettings },
    /// Get a conversation's settings.
    GetSettings { conversation_id: String },
    /// Get a single message by its chain id.
    GetMessageById { conversation_id: String, message_id: String },
    /// Get the id of the most recently appended message in the chain.
    GetHeadId { conversation_id: String },
}

/// A message wrapped with its own chain id and its parent's id (the root
/// has no parent), as returned by the backend's history and lookup calls.
pub struct ChatMessage {
    pub id: Option<String>,
    pub parent_id: Option<String>,
    pub message: genai_types::Message,
}

/// Outbound messages from the gateway to a client.
pub enum ServerMessage {
    /// Greeting for a newly opened connection.
    Welcome { message: String, conversation_id: String },
    /// A new conversation has been created.
    ConversationCreated { conversation_id: String, message: String },
    /// Full history of a conversation.
    Conversation { conversation_id: String, messages: Vec<genai_types::Message> },
    /// An error, classified by `error_code`.
    Error { conversation_id: String, error_code: String, message: String },
    /// Messages produced by a send-message round trip.
    Messages { conversation_id: String, messages: Vec<genai_types::Message> },
    /// The registry's conversation metadata, one entry per conversation.
    ConversationList { conversations: Vec<(String, ConversationMetadata)> },
    /// A conversation's settings.
    Settings { conversation_id: String, settings: ConversationSettings },
    /// Confirmation that settings were replaced.
    SettingsUpdated { conversation_id: String, message: String },
    /// Confirmation that a conversation was renamed.
    ConversationRenamed { conversation_id: String, title: String, message: String },
    /// Bare success acknowledgement.
    Success,
    /// A single message fetched by chain id.
    MessageById { conversation_id: String, message: ChatMessage },
    /// The chain's head id (absent for an empty chain).
    HeadId { conversation_id: String, head_id: Option<String> },
}

/// Display metadata for one conversation.
pub struct ConversationMetadata {
    /// Unique identifier for this conversation.
    pub id: String,
    /// Human-readable title for the conversation.
    pub title: String,
    /// When the conversation was created (timestamp).
    pub created_at: u64,
    /// When the conversation was last updated (timestamp).
    pub updated_at: u64,
    /// Number of messages in the conversation.
    pub message_count: u32,
    /// Preview of the last message (truncated).
    pub last_message_preview: Option<String>,
}

impl Clone for ConversationMetadata {
    fn clone(&self) -> (res: Self)
        ensures
            res == *self,
    {
        ConversationMetadata {
            id: self.id.clone(),
            title: self.title.clone(),
            created_at: self.created_at,
            updated_at: self.updated_at,
            message_count: self.message_count,
            last_message_preview: match &self.last_message_preview {
                Some(s) => Some(s.clone()),
                None => None,
            },
        }
    }
}

/// Initial state handed to a newly spawned backend actor.
pub struct CreateConversationMessage {
    /// Unique ID for the new conversation.
    pub conversation_id: String,
    /// Optional system prompt to set the behavior.
    pub system_prompt: Option<String>,
    /// Model settings, as free-form key/value pairs.
    pub settings: Option<Vec<(String, serde_json::Value)>>,
}

/// The model a conversation talks to.
pub struct ModelConfig {
    pub model: String,
    pub provider: String,
}

impl Clone for ModelConfig {
    fn clone(&self) -> (res: Self)
        ensures
            res == *self,
    {
        ModelConfig { model: self.model.clone(), provider: self.provider.clone() }
    }
}

/// Per-conversation settings, forwarded between client and backend without
/// inspection. The sampling temperature is a JSON number on the wire and is
/// carried here as an opaque JSON value.
pub struct ConversationSettings {
    /// Model to use.
    pub model_config: ModelConfig,
    /// Sampling temperature, if set.
    pub temperature: Option<serde_json::Value>,
    /// Maximum tokens to generate.
    pub max_tokens: u32,
    /// Any additional model parameters.
    pub additional_params: Option<Vec<(String, serde_json::Value)>>,
    /// System prompt to use.
    pub system_prompt: Option<String>,
    /// Title of the conversation.
    pub title: String,
    /// Tool servers available to the conversation.
    pub mcp_servers: Vec<McpServer>,
}

/// How to launch a tool server.
pub struct McpConfig {
    pub command: String,
    pub args: Vec<String>,
}

/// A tool server attached to a conversation.
pub struct McpServer {
    pub actor_id: Option<String>,
    pub config: McpConfig,
    pub tools: Option<Vec<mcp_protocol::tool::Tool>>,
}

/// Requests the gateway sends to a conversation's backend actor.
pub enum ChatStateRequest {
    AddMessage { message: genai_types::Message },
    GenerateCompletion,
    GetSettings,
    UpdateSettings { settings: ConversationSettings },
    GetHistory,
    Subscribe { sub_id: String },
    Unsubscribe { sub_id: String },
    GetHead,
    GetMessage { message_id: String },
}

/// Responses a backend actor may return. Every request has exactly one
/// legal set of response variants; anything else is a protocol violation.
pub enum ChatStateResponse {
    Success,
    Message { message: genai_types::Message },
    Completion { messages: Vec<genai_types::Message> },
    History { messages: Vec<ChatMessage> },
    Settings { settings: ConversationSettings },
    Error { error: ErrorInfo },
    Head { head: Option<String> },
    ChatMessage { message: ChatMessage },
}

/// Error information reported by a backend actor.
pub struct ErrorInfo {
    /// Error code.
    pub code: String,
    /// Human-readable error message.
    pub message: String,
    /// Additional error details.
    pub details: Option<Vec<(String, String)>>,
}

// What each outbound variant holds, stated over views; the constructors'
// and the dispatcher's contracts are phrased with these.

pub open spec fn is_welcome(m: ServerMessage, text: Seq<char>, cid: Seq<char>) -> bool {
    m matches ServerMessage::Welcome { message, conversation_id }
        && message@ == text && conversation_id@ == cid
}

pub open spec fn is_conversation_created(m: ServerMessage, cid: Seq<char>, text: Seq<char>) -> bool {
    m matches ServerMessage::ConversationCreated { conversation_id, message }
        && conversation_id@ == cid && message@ == text
}

pub open spec fn is_error(m: ServerMessage, cid: Seq<char>, code: Seq<char>, text: Seq<char>) -> bool {
    m matches ServerMessage::Error { conversation_id, error_code, message }
        && conversation_id@ == cid && error_code@ == code && message@ == text
}

pub open spec fn is_conversation(
    m: ServerMessage,
    cid: Seq<char>,
    msgs: Seq<genai_types::Message>,
) -> bool {
    m matches ServerMessage::Conversation { conversation_id, messages }
        && conversation_id@ == cid && messages@ == msgs
}

pub open spec fn is_messages(
    m: ServerMessage,
    cid: Seq<char>,
    msgs: Seq<genai_types::Message>,
) -> bool {
    m matches ServerMessage::Messages { conversation_id, messages }
        && conversation_id@ == cid && messages@ == msgs
}

pub open spec fn is_conversation_list(
    m: ServerMessage,
    entries: Seq<(String, ConversationMetadata)>,
) -> bool {
    m matches ServerMessage::ConversationList { conversations } && conversations@ == entries
}

pub open spec fn is_settings(m: ServerMessage, cid: Seq<char>, s: ConversationSettings) -> bool {
    m matches ServerMessage::Settings { conversation_id, settings }
        && conversation_id@ == cid && settings == s
}

pub open spec fn is_settings_updated(m: ServerMessage, cid: Seq<char>, text: Seq<char>) -> bool {
    m matches ServerMessage::SettingsUpdated { conversation_id, message }
        && conversation_id@ == cid && message@ == text
}

pub open spec fn is_conversation_renamed(
    m: ServerMessage,
    cid: Seq<char>,
    new_title: Seq<char>,
    text: Seq<char>,
) -> bool {
    m matches ServerMessage::ConversationRenamed { conversation_id, title, message }
        && conversation_id@ == cid && title@ == new_title && message@ == text
}

pub open spec fn is_message_by_id(m: ServerMessage, cid: Seq<char>, msg: ChatMessage) -> bool {
    m matches ServerMessage::MessageById { conversation_id, message }
        && conversation_id@ == cid && message == msg
}

pub open spec fn is_head_id(m: ServerMessage, cid: Seq<char>, head: Option<Seq<char>>) -> bool {
    m matches ServerMessage::HeadId { conversation_id, head_id }
        && conversation_id@ == cid
        && (match head_id {
            Some(h) => head matches Some(hs) && h@ == hs,
            None => head is None,
        })
}

// Constructors for the outbound variants.

/// Greeting sent to a connection when it opens.
pub fn create_welcome_message() -> (m: ServerMessage)
    ensures
        is_welcome(m, "Welcome to the chat!"@, ""@),
{
    ServerMessage::Welcome {
        message: "Welcome to the chat!".to_owned(),
        conversation_id: "".to_owned(),
    }
}

/// Confirmation that a conversation was created.
pub fn create_conversation_created_message(conversation_id: &str) -> (m: ServerMessage)
    ensures
        is_conversation_created(m, conversation_id@, "New conversation created"@),
{
    ServerMessage::ConversationCreated {
        conversation_id: conversation_id.to_owned(),
        message: "New conversation created".to_owned(),
    }
}

/// An error reply carrying a classification code and a human-readable text.
pub fn create_error_message(conversation_id: &str, content: &str, error_code: &str) -> (m:
    ServerMessage)
    ensures
        is_error(m, conversation_id@, error_code@, content@),
{
    ServerMessage::Error {
        conversation_id: conversation_id.to_owned(),
        error_code: error_code.to_owned(),
        message: content.to_owned(),
    }
}

/// A conversation's full history.
pub fn create_conversation_response(
    conversation_id: &str,
    messages: Vec<genai_types::Message>,
) -> (m: ServerMessage)
    ensures
        is_conversation(m, conversation_id@, messages@),
{
    ServerMessage::Conversation { conversation_id: conversation_id.to_owned(), messages }
}

/// Messages produced by a send-message round trip.
pub fn create_messages_response(
    conversation_id: &str,
    messages: Vec<genai_types::Message>,
) -> (m: ServerMessage)
    ensures
        is_messages(m, conversation_id@, messages@),
{
    ServerMessage::Messages { conversation_id: conversation_id.to_owned(), messages }
}

/// A bare success acknowledgement.
pub fn create_success_response() -> (m: ServerMessage)
    ensures
        m is Success,
{
    ServerMessage::Success
}

/// A conversation's settings.
pub fn create_settings_response(conversation_id: &str, settings: ConversationSettings) -> (m:
    ServerMessage)
    ensures
        is_settings(m, conversation_id@, settings),
{
    ServerMessage::Settings { conversation_id: conversation_id.to_owned(), settings }
}

/// Confirmation that settings were replaced.
pub fn create_settings_updated_response(conversation_id: &str) -> (m: ServerMessage)
    ensures
        is_settings_updated(m, conversation_id@, "Settings updated successfully"@),
{
    ServerMessage::SettingsUpdated {
        conversation_id: conversation_id.to_owned(),
        message: "Settings updated successfully".to_owned(),
    }
}

/// A single message fetched by chain id.
pub fn create_message_by_id_response(conversation_id: &str, message: ChatMessage) -> (m:
    ServerMessage)
    ensures
        is_message_by_id(m, conversation_id@, message),
{
    ServerMessage::MessageById { conversation_id: conversation_id.to_owned(), message }
}

/// The chain's head id.
pub fn create_head_id_response(conversation_id: &str, head_id: &Option<String>) -> (m:
    ServerMessage)
    ensures
        is_head_id(
            m,
            conversation_id@,
            match *head_id {
                Some(h) => Some(h@),
                None => None,
            },
        ),
{
    ServerMessage::HeadId {
        conversation_id: conversation_id.to_owned(),
        head_id: match head_id {
            Some(h) => Some(h.clone()),
            None => None,
        },
    }
}

/// Confirmation that a conversation was renamed.
pub fn create_conversation_renamed_message(conversation_id: &str, title: &str) -> (m:
    ServerMessage)
    ensures
        is_conversation_renamed(
            m,
            conversation_id@,
            title@,
            "Conversation renamed to '"@ + title@ + "'"@,
        ),
{
    let mut text = "Conversation renamed to '".to_owned();
    text.append(title);
    text.append("'");
    ServerMessage::ConversationRenamed {
        conversation_id: conversation_id.to_owned(),
        title: title.to_owned(),
        message: text,
    }
}

} // verus!
