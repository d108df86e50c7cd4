//! Presentation logic of the interactive issue browser: column layout,
//! text truncation, link extraction and the texts the screens show.

pub mod columns;
pub mod detail;
pub mod geometry;
pub mod links;
pub mod model;
pub mod order;
pub mod overlays;
pub mod panels;
pub mod rows;
pub mod text;
