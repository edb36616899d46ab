pub mod quick_connect;
pub mod text;


