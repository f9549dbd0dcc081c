pub mod file_model;
pub mod file;
