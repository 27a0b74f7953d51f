use vstd::prelude::*;

verus! {

/// The terminal colours the library hands to the renderer.
#[derive(Clone, Copy, Debug, PartialEq, Eq, Structural)]
pub enum Color {
    Red,
    Green,
    Cyan,
    Yellow,
    Black,
    DarkGray,
}

} // verus!
