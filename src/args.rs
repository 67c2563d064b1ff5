//! The paths a run works on.

use vstd::prelude::*;

verus! {

/// The two input paths and the output path.
#[derive(Debug)]
pub struct Args {
    pub image1: String,
    pub image2: String,
    pub output: String,
}

impl Args {
    /// Takes the paths from a command line, whose first entry is the
    /// program's name: the next three are the first input, the second input
    /// and the output. Entries after them are ignored.
    pub fn new(args: &Vec<String>) -> (r: Self)
        requires
            args@.len() >= 4,
        ensures
            r.image1 == args@[1],
            r.image2 == args@[2],
            r.output == args@[3],
    {
        Args { image1: args[1].clone(), image2: args[2].clone(), output: args[3].clone() }
    }
}

} // verus!
