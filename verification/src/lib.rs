//! A transport-free client for the AGiXT HTTP API.
//!
//! Every remote operation is split in two halves: a method that
//! describes the request to send, and a method that decodes the reply. The
//! caller owns the network: it sends the described request and hands the
//! status code and the body text back.

pub mod client;
pub mod error;
pub mod http;
pub mod json;
pub mod json_map;
pub mod lookup;
pub mod models;
pub mod reply;
pub mod text;

pub use client::agents::Agent;
pub use client::agents::AgentRequest;
pub use client::conversations::ConversationHistory;
pub use client::conversations::Message;
pub use client::providers::ProviderResponse;
pub use client::providers::ProviderSettings;
pub use client::AGiXTSDK;
pub use error::Error;
