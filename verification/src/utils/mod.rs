pub mod date;
pub mod notify;
pub mod text;
