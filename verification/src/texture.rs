//! Texture shape capabilities: layering and dimensionality.
//!
//! A render target is generic in how its storage is laid out. The pipeline
//! core never inspects that layout; it only carries the shape as type
//! parameters, so that a backend can host targets of any shape through one
//! pipeline interface. Texture allocation and upload are external
//! collaborators' responsibility and are not modeled here.

use vstd::prelude::*;

verus! {

/// A layering scheme for texture storage: either a single texture or an
/// array of layers.
pub trait Layerable {

}

/// A dimensionality for texture storage: one-, two- or three-dimensional,
/// or a cubemap.
pub trait Dimensionable {

}

/// Flat, non-layered storage.
#[derive(Clone, Copy, Debug, PartialEq, Eq)]
pub struct Flat;

impl Layerable for Flat {

}

/// Array storage: several layers of the same dimension.
#[derive(Clone, Copy, Debug, PartialEq, Eq)]
pub struct Layered;

impl Layerable for Layered {

}

/// Two-dimensional storage.
#[derive(Clone, Copy, Debug, PartialEq, Eq)]
pub struct Dim2;

impl Dimensionable for Dim2 {

}

} // verus!
