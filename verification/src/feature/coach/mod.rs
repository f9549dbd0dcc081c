pub mod coach_model;
pub mod coach;
