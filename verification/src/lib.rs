//! LlamaCpp API client: messages, requests, replies and streams.
//!
//! # Example
//! ```
//! use llama_cpp::Client;
//!
//! // Create a new LlamaCpp client (defaults to http://localhost:8402/v1)
//! let client: Client<()> = Client::new();
//!
//! // Create a completion model interface using, for example, the "qwen2.5" model
//! let comp_model = client.completion_model("qwen2.5");
//! ```
pub mod api;
pub mod builder;
pub mod client;
pub mod client_laws;
pub mod completion;
pub mod exchange_laws;
pub mod json;
pub mod json_laws;
pub mod laws;
pub mod lists;
pub mod message;
pub mod model;
pub mod one_or_many;
pub mod outcome;
pub mod piece_laws;
pub mod receiving_laws;
pub mod reply_laws;
pub mod request;
pub mod request_laws;
pub mod response;
pub mod run_laws;
pub mod sending_laws;
pub mod stream_laws;
pub mod streaming;
pub mod text;
pub mod text_laws;
pub mod to_chat;
pub mod to_server;
pub mod value_laws;

pub use client::{Client, ClientBuilder, DummyEmbeddingModel};
pub use completion::{
    AssistantContent, Function, ImageUrl, InputAudio, Message, SystemContent, SystemContentType,
    ToolCall, ToolChoice, ToolDefinition, ToolResultContent, ToolResultContentType, ToolType,
    UserContent, QWEN2_5, QWEN3_8B,
};
pub use model::{ApiErrorResponse, ApiResponse, CompletionModel};
pub use one_or_many::OneOrMany;
pub use request::CompletionRequest;
pub use response::{Choice, CompletionResponse, Usage};
pub use streaming::{StreamingCompletionResponse, StreamingFunction, StreamingToolCall};
