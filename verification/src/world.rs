//! The world: a sparse grid of cells, held by the engine in a chunk layer.
//!
//! Only cells of loaded regions exist. A cell that exists has a state; a
//! read outside the loaded regions finds nothing, and a write there changes
//! nothing. The engine keeps its cells in sections of 16 rows: a layer
//! whose height is no whole number of sections counts as having no cell.

use vstd::prelude::*;
use valence::{BlockPos, BlockState, ChunkLayer};
use crate::orientation::Face;
use crate::registry::CellState;

verus! {

#[verifier::external_type_specification]
#[verifier::external_body]
pub struct ExChunkLayer(ChunkLayer);

/// The cells of a layer: the position of each cell of a loaded region,
/// mapped to the id of the cell's state.
pub uninterp spec fn layer_cells(layer: ChunkLayer) -> Map<(int, int, int), int>;

/// The height of a layer in rows of cells, as the layer was made.
pub uninterp spec fn layer_height(layer: ChunkLayer) -> int;

/// The cells of a layer that can be read and written: those of the layer
/// where its height is a whole number of sections of 16 rows, and none
/// otherwise.
pub open spec fn loaded_cells(layer: ChunkLayer) -> Map<(int, int, int), int> {
    if layer_height(layer) % 16 == 0 {
        layer_cells(layer)
    } else {
        Map::empty()
    }
}

/// The position of a cell.
#[derive(Clone, Copy, Debug, PartialEq, Eq, Structural)]
pub struct Position {
    pub x: i32,
    pub y: i32,
    pub z: i32,
}

/// The position one step from `at` in the direction of `face`: up is +y,
/// south is +z, east is +x.
pub open spec fn step(at: (int, int, int), face: Face) -> (int, int, int) {
    match face {
        Face::Up => (at.0, at.1 + 1, at.2),
        Face::Down => (at.0, at.1 - 1, at.2),
        Face::North => (at.0, at.1, at.2 - 1),
        Face::South => (at.0, at.1, at.2 + 1),
        Face::East => (at.0 + 1, at.1, at.2),
        Face::West => (at.0 - 1, at.1, at.2),
    }
}

/// Whether each coordinate of `at` is one that a position can hold.
pub open spec fn in_grid(at: (int, int, int)) -> bool {
    &&& i32::MIN <= at.0 <= i32::MAX
    &&& i32::MIN <= at.1 <= i32::MAX
    &&& i32::MIN <= at.2 <= i32::MAX
}

/// The cells after a write of `state` at `at`: the cell takes the state if
/// it exists, and nothing else changes.
pub open spec fn written(cells: Map<(int, int, int), int>, at: (int, int, int), state: int) -> Map<
    (int, int, int),
    int,
> {
    if cells.contains_key(at) {
        cells.insert(at, state)
    } else {
        cells
    }
}

impl Position {
    /// The coordinates as a key into the cells of a layer.
    pub open spec fn key(self) -> (int, int, int) {
        (self.x as int, self.y as int, self.z as int)
    }

    /// The position one step away in the direction of `face`, or `None`
    /// where the grid ends.
    pub fn offset(&self, face: Face) -> (next: Option<Position>)
        ensures
            next.is_some() == in_grid(step(self.key(), face)),
            next matches Some(p) ==> p.key() == step(self.key(), face),
    {
        let moved: Option<i32> = match face {
            Face::Up | Face::South | Face::East => match face {
                Face::Up => self.y.checked_add(1),
                Face::South => self.z.checked_add(1),
                _ => self.x.checked_add(1),
            },
            _ => match face {
                Face::Down => self.y.checked_sub(1),
                Face::North => self.z.checked_sub(1),
                _ => self.x.checked_sub(1),
            },
        };
        match moved {
            None => None,
            Some(c) => Some(
                match face {
                    Face::Up | Face::Down => Position { x: self.x, y: c, z: self.z },
                    Face::North | Face::South => Position { x: self.x, y: self.y, z: c },
                    Face::East | Face::West => Position { x: c, y: self.y, z: self.z },
                },
            ),
        }
    }
}

/// Trusted: `ChunkLayer::height` of valence returns the height that the
/// layer was made with.
#[verifier::external_body]
fn height_of(layer: &ChunkLayer) -> (height: u32)
    ensures
        height == layer_height(*layer),
{
    layer.height()
}

/// Trusted: `ChunkLayer::block` of valence returns the block of the cell at
/// a position of a loaded region, and `None` elsewhere; `to_raw` gives the
/// id of its state. In a layer whose height is no multiple of 16 it panics
/// on the rows above the last whole section.
#[verifier::external_body]
fn block_at(layer: &ChunkLayer, at: Position) -> (state: Option<CellState>)
    requires
        layer_height(*layer) % 16 == 0,
    ensures
        state.is_some() == layer_cells(*layer).contains_key(at.key()),
        state matches Some(s) ==> layer_cells(*layer)[at.key()] == s@,
{
    layer.block(BlockPos::new(at.x, at.y, at.z)).map(|b| CellState { raw: b.state.to_raw() })
}

/// Trusted: `ChunkLayer::set_block` of valence puts the state into the cell
/// at a position of a loaded region and leaves every other cell, and the
/// height of the layer, as it was; elsewhere it changes nothing. In a
/// layer whose height is no multiple of 16 it panics on the rows above the
/// last whole section.
#[verifier::external_body]
fn set_block_at(layer: &mut ChunkLayer, at: Position, state: CellState)
    requires
        state.wf(),
        layer_height(*old(layer)) % 16 == 0,
    ensures
        layer_cells(*final(layer)) == written(layer_cells(*old(layer)), at.key(), state@),
        layer_height(*final(layer)) == layer_height(*old(layer)),
{
    layer.set_block(BlockPos::new(at.x, at.y, at.z), BlockState::from_raw(state.raw).unwrap());
}

/// Whether the height of the layer is a whole number of sections.
pub fn has_whole_sections(layer: &ChunkLayer) -> (whole: bool)
    ensures
        whole == (layer_height(*layer) % 16 == 0),
{
    height_of(layer) % 16 == 0
}

/// The state of the cell at `at`, or `None` where no region is loaded.
pub fn read_cell(layer: &ChunkLayer, at: Position) -> (state: Option<CellState>)
    ensures
        state.is_some() == loaded_cells(*layer).contains_key(at.key()),
        state matches Some(s) ==> loaded_cells(*layer)[at.key()] == s@,
{
    if has_whole_sections(layer) {
        block_at(layer, at)
    } else {
        None
    }
}

/// Puts `state` into the cell at `at`. Where no region is loaded the world
/// stays as it is.
pub fn write_cell(layer: &mut ChunkLayer, at: Position, state: CellState)
    ensures
        loaded_cells(*final(layer)) == written(loaded_cells(*old(layer)), at.key(), state@),
        layer_height(*final(layer)) == layer_height(*old(layer)),
{
    if has_whole_sections(layer) {
        proof {
            use_type_invariant(&state);
        }
        set_block_at(layer, at, state)
    }
}

} // verus!
