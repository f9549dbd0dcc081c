pub mod threads_model;
pub mod threads;
