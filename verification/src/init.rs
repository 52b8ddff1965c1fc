//! The init container, which copies the koordinator to where the other containers of the
//! pod find it.

use vstd::prelude::*;

use crate::text::texts;

verus! {

/// The directory to copy the koordinator to: the first argument after the name of the
/// program, if there is one.
pub fn copy_destination(args: &Vec<String>) -> (destination: Option<String>)
    ensures
        match destination {
            Some(directory) => args@.len() >= 2 && directory@ == texts(args@)[1],
            None => args@.len() < 2,
        },
        destination matches Some(directory) ==> directory@ == args@[1]@,
{
    if args.len() < 2 {
        None
    } else {
        Some(args[1].clone())
    }
}

} // verus!
