//! A verified core for a command-line chat assistant.
//!
//! The library holds the logic of the tool: resolving configuration,
//! building transcripts and chat-completion request bodies, keeping a
//! sliding window over input lines, and classifying HTTP responses.
//! Text is carried as UTF-8 bytes (`Vec<u8>`); the surrounding binary
//! does the terminal and network work and hands plain values in and out.

pub mod chat;
pub mod codec;
pub mod config;
pub mod response;
pub mod transcript;
pub mod window;

pub use chat::chat_turn;
pub use chat::is_exit_command;
pub use chat::note_reply;
pub use chat::TurnAction;
pub use codec::request_body;
pub use config::chat_completions_url;
pub use config::check_openai_api_key;
pub use config::model_selector;
pub use config::ChatError;
pub use response::response_outcome;
pub use transcript::Message;
pub use transcript::Role;
pub use transcript::Transcript;
pub use window::LineWindow;
