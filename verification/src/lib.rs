//! Verified logic of the RouteCode terminal user interface: command and menu
//! navigation, the key, mouse and stream state machine of the chat session,
//! rendering of the chat history into styled lines, and the markdown
//! highlighting of assistant replies.

pub mod text;
pub mod style;
pub mod markdown;
pub mod json;
pub mod chat;
pub mod menu;
pub mod catalog;
pub mod textbox;
pub mod state;
pub mod keys;
pub mod enter;
pub mod shortcuts;
pub mod events;
pub mod models;
pub mod stream;
pub mod layout;
pub mod mouse;
pub mod render;
pub mod frame;
pub mod laws;
