//! A procedurally generated scrolling corridor ("tunnel") engine.
//!
//! The tunnel is a sliding window of row geometries through which a player
//! moves horizontally while the corridor advances one row per tick. The
//! engine owns the wall geometry, the narrowing rules, the collision test
//! and a lazy cell enumeration; rendering and input live with the caller.

pub mod cells;
pub mod engine;
pub mod geometry;
pub mod index;
pub mod laws;

pub use cells::TunnelIterator;
pub use engine::Tunnel;
pub use engine::TunnelBuilder;
pub use engine::TunnelBuilderChoice;
pub use geometry::TunnelCellType;
pub use geometry::TunnelWalls;
pub use index::TunnelIndex;
pub use index::rows_to_loop_iterations;
pub use index::three;
pub use index::two;
