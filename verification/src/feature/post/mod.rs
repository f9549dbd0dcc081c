pub mod post_model;
