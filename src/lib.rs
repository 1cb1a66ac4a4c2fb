//! Viewport engine of a virtualized data grid: which rows and columns of a
//! partly loaded table a surface shows, where the scrollbar thumbs sit, and
//! which cell lies under a point.

pub mod adapter;
pub mod data_state;
pub mod grid;
pub mod renderer;
pub mod visibility_state;
