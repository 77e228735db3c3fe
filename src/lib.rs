//! A grid container: a model of children placed in rows and columns, and the
//! decisions of its layout pass, stated over whole pixels.
//!
//! Measuring the children and solving the grid's constraints are the host's:
//! [`layout::plan`] builds the tree to solve, [`layout::remeasure_widths`]
//! says which children to measure again once their cells are known, and
//! [`layout::finish`] places the children and pads the grid.
pub mod geometry;
pub mod grid;
pub mod layout;
pub mod position;
