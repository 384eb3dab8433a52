//! Render targets.
//!
//! A [`Framebuffer`] is the external resource a pipeline renders into. Its
//! allocation, its color and depth storage and its lifetime are managed by
//! the backend; this crate only borrows it and identifies it to the backend
//! by its handle. The shape of the target — layering, dimensionality, color
//! slot and depth slot — is carried as type parameters so that the pipeline
//! core stays agnostic to it.

use vstd::prelude::*;
use crate::texture::{Dimensionable, Layerable};

verus! {

/// The color output layout of a render target.
pub trait ColorSlot {

}

/// The depth output layout of a render target.
pub trait DepthSlot {

}

/// No color output.
impl ColorSlot for () {

}

/// No depth output.
impl DepthSlot for () {

}

/// A single RGBA color output, eight bits per channel.
#[derive(Clone, Copy, Debug, PartialEq, Eq)]
pub struct RGBA8UI;

impl ColorSlot for RGBA8UI {

}

/// A single 32-bit depth output.
#[derive(Clone, Copy, Debug, PartialEq, Eq)]
pub struct Depth32F;

impl DepthSlot for Depth32F {

}

/// A borrowed render target of a given shape.
///
/// `L` is the layering of the underlying storage, `D` its dimension, `CS`
/// its color slot and `DS` its depth slot. The `handle` is the backend's
/// name for the target; the pipeline core forwards it opaquely.
pub struct Framebuffer<L, D, CS, DS> where
    L: Layerable,
    D: Dimensionable,
    CS: ColorSlot,
    DS: DepthSlot,
 {
    /// The backend's handle for this target.
    pub handle: u64,
    /// The layering of the underlying texture storage.
    pub layering: L,
    /// The dimension of the underlying texture storage.
    pub dim: D,
    /// The color slot rendered into.
    pub color_slot: CS,
    /// The depth slot rendered into.
    pub depth_slot: DS,
}

impl<L, D, CS, DS> Framebuffer<L, D, CS, DS> where
    L: Layerable,
    D: Dimensionable,
    CS: ColorSlot,
    DS: DepthSlot,
 {
    /// Wraps a backend-allocated target so pipelines can borrow it.
    pub fn new(handle: u64, layering: L, dim: D, color_slot: CS, depth_slot: DS) -> (fb: Self)
        ensures
            fb.handle == handle,
            fb.layering == layering,
            fb.dim == dim,
            fb.color_slot == color_slot,
            fb.depth_slot == depth_slot,
    {
        Framebuffer { handle, layering, dim, color_slot, depth_slot }
    }
}

} // verus!
