//! The script every page carries.

use vstd::prelude::*;

verus! {

/// The page script: the text of the site's script file, handed over as it
/// was read.
pub fn base(script: &str) -> (r: String)
    ensures
        r@ == script@,
{
    script.to_owned()
}

} // verus!
