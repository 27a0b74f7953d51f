pub mod calendar;
pub mod search;
pub mod status;
