//! Core logic of a Direct3D 9 implementation on top of Metal.
//!
//! The crate holds the parts of the implementation that decide things:
//! which render passes a frame needs, how fixed-function state becomes shader
//! text, how D3D9 formats and enumerations map onto Metal's, how the settings
//! file is read, and where per-frame scratch bytes live. Nothing here talks to
//! a GPU. Texture and pipeline handles are plain `u64` values, zero meaning
//! "none", and every floating-point quantity is carried as its IEEE bit pattern.

pub mod app_profile;
pub mod bits;
pub mod bytes;
pub mod config;
pub mod convert;
pub mod d3d9;
pub mod dxso;
pub mod ff_state;
pub mod fx;
pub mod metal;
pub mod passes;
pub mod scratch;
pub mod text;
