pub mod user_model;
pub mod user;
