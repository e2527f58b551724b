//! Client-side logic for talking to a chat-completion endpoint: prompt
//! resolution, request assembly, decoding of complete and streamed
//! responses, and normalisation of the chunks that reach the user.

pub mod config;
pub mod context;
pub mod json;
pub mod logger;
pub mod normalizer;
pub mod output;
pub mod prompt;
pub mod reader;
pub mod response;
pub mod server;
pub mod text;
