//! Thin, verified helpers around the OpenGL object model.
//!
//! Nothing in this crate talks to a driver. Every operation is described as a
//! [`call::Call`], a plain value that names one OpenGL entry point together
//! with its arguments, and the longer procedures are small state machines that
//! hand out one [`call::Action`] at a time and take the driver's
//! [`call::Reply`] back. Whoever owns the context performs the calls.
pub mod binding;
pub mod call;
pub mod codes;
pub mod text;
pub mod graphics;
pub mod mesh;
pub mod scene;
