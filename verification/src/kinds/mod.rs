pub mod color;
pub mod key;
pub mod phase;
