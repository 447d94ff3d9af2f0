//! Selecting the folder to watch.

use vstd::prelude::*;
use crate::cause::Cause;

verus! {

/// Why a folder could not be selected.
#[derive(Debug)]
pub struct Error {
    pub cause: Cause,
}

} // verus!
