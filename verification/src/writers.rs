//! Writers for the graphics modes of the adapter.

pub mod graphics_640x480x16;
