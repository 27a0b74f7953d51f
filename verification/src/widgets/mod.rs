pub mod popup;
pub mod timer;
pub mod todos;
