//! Chart geometry and scaling in exact arithmetic.
//!
//! The crate derives axis ranges from integer data, plans the anisotropic
//! scaling of a drawing surface, maps data onto that surface and lists the
//! drawing primitives of line charts, vertical bar charts and histograms.
//! All positions are exact fractions of the surface; a host turns them into
//! pixels.

pub mod axis;
pub mod chart;
pub mod data;
pub mod error;
pub mod histogram;
pub mod line_chart;
pub mod mapper;
pub mod palette;
pub mod primitive;
pub mod ratio;
pub mod render;
pub mod scale;
pub mod vertical_bar_chart;
