pub mod reduce_picker;
pub mod status;
pub mod todo_show;
