//! Capture and restore of multi-monitor display topologies.
//!
//! The library holds the display-configuration model as plain values and the
//! logic around it: matching path records to mode records, the numeric codecs
//! of the per-display attributes (DPI scale, advanced color, SDR white level),
//! the remapping of volatile adapter identifiers, and the decision machines
//! that drive the operating system through a buffer-size race and through a
//! staged, escalating apply.
pub mod apply;
pub mod attributes;
pub mod config;
pub mod paths;
pub mod reader;
pub mod remap;
pub mod snapshot;
pub mod topology;
pub mod wallpaper;
