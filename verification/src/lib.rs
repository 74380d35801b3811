//! Client-side data model for chat-completion HTTP APIs: bounded request
//! parameters, the message and tool model, the request assembler with its
//! wire serialization, and the decoders for whole and streamed responses.

pub mod bounded;
pub mod completion;
pub mod decode;
pub mod json;
pub mod message;
pub mod provider;
pub mod request;
pub mod stream;
