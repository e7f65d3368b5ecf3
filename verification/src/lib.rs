//! Time-driven effects for grids of styled character cells, composed declaratively.
//!
//! An [`Effect`] owns one shader: a custom one that draws, or one of the
//! built-in combinators of [`fx`], which hand the time they are fed on to
//! other effects. The host feeds an effect the time that has passed once per
//! frame; the effect returns what it could not use.

pub mod buffer_renderer;
pub mod cell_filter;
pub mod color_ext;
pub mod duration;
pub mod effect;
pub mod effect_timer;
pub mod fx;
pub mod geometry;
pub mod interpolation;
pub mod render_effect;
pub mod shader;
pub mod simple_rng;

pub use buffer_renderer::{blit_region, blit_target, BlitRegion};
pub use cell_filter::{Cell, CellFilter, CellPredicate, CellSelector, PositionPredicate};
pub use color_ext::{AsIndexedColor, Color, ToRgbComponents};
pub use duration::Duration;
pub use effect::{Effect, IntoEffect};
pub use effect_timer::EffectTimer;
pub use fx::direction::Direction;
pub use fx::glitch::{Glitch, GlitchCell, GlitchType};
pub use fx::repeat::RepeatMode;
pub use fx::temporary::IntoTemporaryEffect;
pub use geometry::{Margin, Offset, Position, Rect, Size};
pub use interpolation::Interpolation;
pub use render_effect::EffectRenderer;
pub use shader::{Processed, Shader};
pub use simple_rng::{shuffle, RangeSampler, SimpleRng};
