//! An autonomous LLM agent: the configuration it runs with, the conversation
//! context it keeps in a ring buffer of turns, the tools the model may call
//! and the loop that drives the conversation, as a verified library.
pub mod text;
pub mod config;
pub mod llm;
pub mod ring;
pub mod data;
pub mod tools;
pub mod agent;
