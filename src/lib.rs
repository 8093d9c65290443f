//! Backend logic of a desktop chat client for a local Ollama server: the
//! selected host and model, and the requests that the two server calls make.

pub mod relay;
pub mod selection;
pub mod wire;
