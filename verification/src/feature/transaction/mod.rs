pub mod transaction;
