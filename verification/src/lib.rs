pub mod decimal;
pub mod employee;
pub mod http;
pub mod iterate;
pub mod payment;
pub mod scores;
pub mod text;
