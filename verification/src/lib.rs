//! Turning a free-text description of a shell task into one CLI command with
//! the help of a hosted language model: the prompt that is sent, the reading
//! of the model's reply, and the layered lookup of the API key.

pub mod text;
pub mod extract;
pub mod prompt;
pub mod response;
pub mod credentials;
