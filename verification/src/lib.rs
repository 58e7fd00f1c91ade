//! Resolution of player actions on a voxel grid.
//!
//! A dig event removes the block of a cell; an interact event places the
//! block of the held item against a face of a cell, oriented by the face
//! struck and by the direction the player looks in, and takes one item from
//! the held stack. Both are decided here and carried out on the world and
//! the inventory of the `valence` engine. A small line-oriented script
//! language drives the same path and asserts on its outcome.

pub mod orientation;
pub mod text;
pub mod property;
pub mod registry;
pub mod world;
pub mod inventory;
pub mod shape;
pub mod dispatch;
pub mod script;
pub mod scenario;
