//! Verified core of a small interactive glTF model viewer.
//!
//! The library decides; the program around it acts. It turns an imported
//! asset into draw-ready meshes and materials, prepares base-colour textures,
//! lays out the vertex record, records the commands of a frame, and drives the
//! viewer's lifecycle and pointer handling. Everything a GPU, a window or
//! floating-point arithmetic has to do is handed back as a value for the
//! caller to carry out.
//!
//! Single-precision numbers that the library only moves (vertex attributes)
//! are carried as their IEEE-754 bit patterns in `u32`.

pub mod app;
pub mod graphics;
