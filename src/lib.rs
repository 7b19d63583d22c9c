//! Resolution and tile geometry of the tiled-pattern paint server.
pub mod attributes;
pub mod atts;
pub mod pattern;
pub mod resolve;
pub mod tile;
