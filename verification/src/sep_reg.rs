use vstd::prelude::*;

pub mod mem_wb;

verus! {

} // verus!
