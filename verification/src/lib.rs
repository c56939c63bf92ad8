//! Prompt construction and call policy for an agent that asks a chat-completion
//! service to act as a "function printer".
//!
//! The crate holds the parts that can be stated and proved: the chat message, the
//! exact text of the extended prompt, and the rule that a failed call is repeated
//! once and no more. Talking to the service is left to the caller, who reports each
//! call's outcome back.

pub mod message;
pub mod prompt;
pub mod task;
