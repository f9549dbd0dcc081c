pub mod branch_model;
pub mod branch;
