//! Pointer-to-grid-cell resolution and hover-transition tracking for a
//! camera-driven 2D tile grid.
//!
//! The library works in integer world coordinates: the host chooses a
//! fixed-point resolution (for example thousandths of a world unit),
//! expresses the grid's cell size and origin in those units, and hands the
//! resolver the pointer's world-space position in the same units, or `None`
//! when no world position is available this tick (pointer absent, or the
//! camera's projection was not invertible).

pub mod grid;
pub mod reactor;
pub mod resolver;
