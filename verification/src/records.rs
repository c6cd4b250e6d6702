//! Row shapes of the reloading database.

use vstd::prelude::*;

verus! {

/// One row of the `powder` table.
#[derive(Clone, Debug, PartialEq, Eq)]
pub struct Powder {
    pub powder_id: i32,
    pub manufacturer: String,
    pub powder_type: String,
}

} // verus!
