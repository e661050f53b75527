//! Decision logic of a chat-room bot that relays room messages to a language
//! model: the conversation history, the routing of room events, and the
//! back-off state machine that joins rooms on invite.

mod config;
mod history;
mod join;
mod router;

pub use config::{BotConfig, ConfigError, ConfigVar, INFERENCE_PORT};
pub use history::{ConversationHistory, Message, Role};
pub use join::{
    InviteEvent, JoinAction, JoinAttemptState, JoinEvent, JoinPhase, JoinStatus,
    INITIAL_DELAY_SECS, MAX_DELAY_SECS,
};
pub use router::{EventContent, InferenceError, MessageRouter, RoomEvent, RoomState, RouterAction};
