//! The verified core of the nilo UI framework: the abstract syntax of `.nilo`
//! programs and the computations on it that need no floating point, plus the
//! small state machines (event queue, frame statistics) that the runtime keeps.
//!
//! Quantities that the framework measures in single-precision floating point
//! are held here as their IEEE-754 bit patterns (`u32`); nothing in this crate
//! does arithmetic on them, it only stores, copies and compares them.
pub mod parser;
pub mod renderer_abstract;
pub mod stencil;
pub mod text;
pub mod ui;
pub mod wgpu_renderer;
