//! Rectangle rendering primitive: a style model, a symbolic tessellation of
//! square, rounded and beveled rectangles (with and without border), and the
//! dispatch that turns a style into the colour and triangle-list commands a
//! rendering backend executes.

pub mod draw;
pub mod draw_state;
pub mod style;
pub mod tessellation;

