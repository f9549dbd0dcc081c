pub mod conversation_model;
pub mod conversation;
