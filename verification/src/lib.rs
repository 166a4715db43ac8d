//! Rendering and layout core of an immediate-mode GUI toolkit, on integer
//! geometry: a painter that records clipped shapes per layer, screen-edge
//! panels that carve a per-pass budget, and a cursor-based strip layout.
//!
//! Lengths and coordinates are `i32` layout units, [`num::UNITS_PER_POINT`] to
//! the logical point. Factors such as opacity and animation progress are
//! fixed-point `i32` values with [`num::ONE`] standing for one. All arithmetic
//! saturates at the ends of `i32`, so every operation is total.
//!
//! A pass is one cycle of layout and painting. Its state is a
//! [`context::PassContext`], which is handed to every call that reads or
//! changes it. Content is a callback that takes the context and its region
//! by value and hands both back, together with what it computed.
//!
//! The modules, leaves first:
//!
//! - [`num`], [`geom`], [`color`], [`id`]: numbers, rectangles, colours and
//!   identifiers.
//! - [`shape`], [`layers`]: the drawable primitives and the paint lists that
//!   collect them per layer.
//! - [`style`], [`context`]: the style values, and the state of a pass.
//! - [`painter`]: the one way by which shapes reach the paint lists.
//! - [`ui`]: regions and frames.
//! - [`panel`], [`side_panel`], [`top_bottom_panel`], [`central_panel`]:
//!   panels.
//! - [`strip`]: the strip layout.
//! - [`repaint`]: when to repaint which window.
//! - [`laws`]: what holds of the library as a whole.

pub mod num;
pub mod geom;
pub mod color;
pub mod id;
pub mod shape;
pub mod layers;
pub mod style;
pub mod context;
pub mod painter;
pub mod ui;
pub mod panel;
pub mod side_panel;
pub mod top_bottom_panel;
pub mod central_panel;
pub mod strip;
pub mod repaint;
pub mod laws;
