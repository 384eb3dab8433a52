//! Shader programs and uniform updates.
//!
//! A [`Program`] is an external resource: a compiled and linked shader,
//! identified to the backend by its handle, together with the typed uniform
//! interface the backend derived for it. Shading and render commands update
//! that interface through a one-shot callback, represented here by the
//! [`UniformUpdate`] capability: one method, invoked by the backend exactly
//! once per execution of the command that owns it.

use vstd::prelude::*;

verus! {

/// A borrowed shader program whose uniform interface has type `T`.
pub struct Program<T> {
    /// The backend's handle for this program.
    pub handle: u64,
    /// The uniform interface the backend built for this program.
    pub uniform_interface: T,
}

impl<T> Program<T> {
    /// Wraps a backend-compiled program so shading commands can borrow it.
    pub fn new(handle: u64, uniform_interface: T) -> (p: Self)
        ensures
            p.handle == handle,
            p.uniform_interface == uniform_interface,
    {
        Program { handle, uniform_interface }
    }
}

/// A uniform-update callback: one-shot user logic that configures the
/// uniforms of a bound program through its uniform interface.
///
/// An updater is a small context object with a single entry point, captured
/// by a command at construction time. Whatever state the update logic needs
/// lives in the implementing value, so one updater type can serve several
/// commands with differing behavior per value.
pub trait UniformUpdate {
    /// The uniform-interface type this updater understands.
    type Payload;

    /// Configures uniforms through the interface of the bound program.
    ///
    /// The executing backend invokes this exactly once per execution of the
    /// command holding the updater, before that command's draw is issued.
    fn update(&self, uniforms: &Self::Payload);
}

} // verus!
