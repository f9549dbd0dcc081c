pub mod stock_model;
