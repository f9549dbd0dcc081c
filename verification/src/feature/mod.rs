pub mod auth;
pub mod branch;
pub mod coach;
pub mod conversation;
pub mod event;
pub mod file;
pub mod invitation;
pub mod member;
pub mod models;
pub mod permission;
pub mod post;
pub mod report;
pub mod space;
pub mod sse;
pub mod stock;
pub mod thread;
pub mod threads;
pub mod user;
pub mod transaction;
pub mod dashboard;
