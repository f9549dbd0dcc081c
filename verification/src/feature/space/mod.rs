pub mod space_model;
