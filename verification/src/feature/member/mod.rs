pub mod member_model;
pub mod member;
