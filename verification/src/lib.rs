//! A Conway-style cellular automaton: a fixed-size grid of binary cells
//! evolving under the classic neighbor rule, with a renderer that turns a
//! grid into draw commands, a lock-guarded coordinator shared between the
//! simulation thread and the display thread, and the clock arithmetic that
//! paces the simulation.

pub mod clock;
pub mod coordinator;
pub mod grid;
pub mod render;
pub mod state;
