//! Core state engine of an interactive dashboard for a container-runtime
//! daemon: a selectable virtualized list, a two-axis scrollable viewport,
//! per-resource table views, and the screen/pending-operation controller
//! that routes events between them.

pub mod app;
pub mod containers;
pub mod detail;
pub mod events;
pub mod images;
pub mod list;
pub mod networks;
pub mod patterns;
pub mod sorting;
pub mod text;
pub mod time;
pub mod viewport;
pub mod volumes;
