use vstd::prelude::*;

verus! {

/// The `sync` command.
pub struct Sync;

impl Sync {
    pub fn new() -> (res: Self) {
        Sync
    }

    /// The command's name and one-line description, for `orivo help`.
    pub fn help() -> (res: &'static [&'static str])
        ensures
            res@.len() == 2,
            res@[0]@ == "sync"@,
            res@[1]@ == "Sync your data with GitHub (pulls and/or pushes as needed)"@,
    {
        &["sync", "Sync your data with GitHub (pulls and/or pushes as needed)"]
    }
}

} // verus!
