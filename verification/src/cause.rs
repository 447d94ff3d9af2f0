//! Failures that reach this library from below.

use vstd::prelude::*;

verus! {

/// What a lower layer (the network, the server, a protocol library) said of its
/// failure, in the words in which it is reported.
#[derive(Debug)]
pub struct Cause {
    pub text: String,
}

impl Clone for Cause {
    fn clone(&self) -> (r: Self)
        ensures
            r == *self,
    {
        Cause { text: self.text.clone() }
    }
}

} // verus!
