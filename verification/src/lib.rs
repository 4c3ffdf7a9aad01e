//! A verified core for an HTML-canvas-style 2D drawing context over a vector
//! backend: path construction, arc/ellipse angle normalization, paint and
//! style state, the save/restore state stack, and the drawing pipeline that
//! turns context calls into a log of backend operations.

pub mod angle;
pub mod codec;
pub mod composite;
pub mod context;
pub mod encoding;
pub mod font;
pub mod geometry;
pub mod handles;
pub mod image_asset;
pub mod ops;
pub mod paint;
pub mod path;
pub mod strutil;
pub mod svg;
pub mod veclib;
