//! A drag-resize controller for a two-region split pane.
//!
//! A split pane shows two regions separated by a draggable divider. This
//! crate owns the interaction logic of such a divider: it tracks pointer
//! state across press, move and release events, converts pointer movement
//! into a proportional size for the first region, and keeps that proportion
//! consistent with changes to the container's own size. Rendering, event
//! subscription and geometry queries are left to a host layer, which feeds
//! the controller plain pixel values and reads back the current split ratio.

pub mod axis;
pub mod controller;
pub mod laws;
pub mod ratio;
