//! Color blending configuration.
//!
//! A draw may composite its output onto the render target with a blending
//! formula: an equation and a pair of factors for the source and destination
//! colors. The pipeline core never interprets these values; it only forwards
//! them to the backend, which maps them onto the device's blending modes.

use vstd::prelude::*;

verus! {

/// The equation combining the weighted source and destination colors.
#[derive(Clone, Copy, Debug, PartialEq, Eq)]
pub enum Equation {
    /// `source + destination`.
    Additive,
    /// `source - destination`.
    Subtract,
    /// `destination - source`.
    ReverseSubtract,
    /// `min(source, destination)`.
    Min,
    /// `max(source, destination)`.
    Max,
}

/// The weight applied to the source or destination color in the equation.
#[derive(Clone, Copy, Debug, PartialEq, Eq)]
pub enum Factor {
    /// `1`.
    One,
    /// `0`.
    Zero,
    /// The source color.
    SrcColor,
    /// One minus the source color.
    NegativeSrcColor,
    /// The destination color.
    DestColor,
    /// One minus the destination color.
    NegativeDestColor,
    /// The source alpha channel.
    SrcAlpha,
    /// One minus the source alpha channel.
    NegativeSrcAlpha,
    /// The destination alpha channel.
    DstAlpha,
    /// One minus the destination alpha channel.
    NegativeDstAlpha,
    /// The saturated source alpha channel.
    SrcAlphaSaturate,
}

} // verus!
