pub mod audit;
pub mod errors;
pub mod fields;
pub mod ids;
pub mod laws;
pub mod services;
pub mod task;
pub mod text;
pub mod user;

