//! Foundation layer of a desktop engine: native windows whose callbacks feed an
//! engine-owned event queue, a window registry applied by a logic thread, and
//! the lifecycle of a GPU rendering backend.
pub mod io;
pub mod liquid_engine;
pub mod renderer;
pub mod window;
