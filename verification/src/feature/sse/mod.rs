pub mod sse_model;
