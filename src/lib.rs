//! Sketch recognition: drawing into a pixel canvas, turning the drawing into
//! the input of a classifier, and laying out what is shown for each class.
pub mod canvas;
pub mod sample;
pub mod stroke;
pub mod inference;
pub mod layout;
