pub mod text;
pub mod decimal;
pub mod outside;
pub mod validation;
pub mod object_id;
pub mod feature;
