//! A small raster paint engine: an RGBA pixel canvas, square and circular
//! brush stamps, and the tool/colour/text-input state that drives them.

pub mod color;
pub mod raster;
pub mod canvas;
pub mod brush;
pub mod text;
pub mod state;
pub mod controller;
