//! Tessellations: uploaded geometry.
//!
//! A [`Tessellation`] is an external resource representing geometry already
//! uploaded to the GPU, together with its primitive topology. The pipeline
//! core never reads the geometry; it only borrows the resource and names it
//! to the backend by its handle when a draw is issued.

use vstd::prelude::*;

verus! {

/// A borrowed piece of uploaded geometry.
pub struct Tessellation {
    /// The backend's handle for this geometry.
    pub handle: u64,
}

impl Tessellation {
    /// Wraps backend-uploaded geometry so render commands can borrow it.
    pub fn new(handle: u64) -> (t: Self)
        ensures
            t.handle == handle,
    {
        Tessellation { handle }
    }
}

} // verus!
