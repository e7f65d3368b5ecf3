//! The catalogue of easing curves a timer can be tagged with.

use vstd::prelude::*;

verus! {

/// Names the easing curve that maps raw progress to the value an effect renders with.
///
/// The library only carries the tag; evaluating a curve is floating-point work
/// that belongs to the rendering side.
#[derive(Clone, Copy, Debug, PartialEq, Eq, Structural, Hash)]
pub enum Interpolation {
    BackIn,
    BackOut,
    BackInOut,
    BounceIn,
    BounceOut,
    BounceInOut,
    CircIn,
    CircOut,
    CircInOut,
    CubicIn,
    CubicOut,
    CubicInOut,
    ElasticIn,
    ElasticOut,
    ElasticInOut,
    ExpoIn,
    ExpoOut,
    ExpoInOut,
    Linear,
    QuadIn,
    QuadOut,
    QuadInOut,
    QuartIn,
    QuartOut,
    QuartInOut,
    QuintIn,
    QuintOut,
    QuintInOut,
    Reverse,
    SineIn,
    SineOut,
    SineInOut,
}

impl Default for Interpolation {
    fn default() -> (i: Self)
        ensures
            i == Interpolation::Linear,
    {
        Interpolation::Linear
    }
}

} // verus!
