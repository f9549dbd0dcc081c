pub mod permission_model;
