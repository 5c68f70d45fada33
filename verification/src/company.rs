//! The company as the visibility filters see it.

use vstd::prelude::*;

verus! {

/// A company: only the talents presented to it matter to the filters.
#[derive(Debug, Clone)]
pub struct Company {
    pub presented_talents: Vec<i32>,
}

} // verus!
