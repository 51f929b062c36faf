//! Verified core logic of the Territory Tabs UI layout framework.
//!
//! The library holds the decisions of the framework as plain values: resize
//! handles and the magnitudes they carry, the links between neighbouring
//! territories, the application's state machines, the placeholder bookkeeping
//! of a tab move, the drag interaction state machine, the decisions of the
//! territory motion pipeline, the display bookkeeping and the tab catalogue.
//! Coordinates are never handled here: every function is generic over the
//! value that a magnitude carries, and callers keep the geometry.
pub mod resize;
pub mod connections;
pub mod states;
pub mod placeholder;
pub mod drag;
pub mod motion;
pub mod tabs;
pub mod display;
pub mod requests;
