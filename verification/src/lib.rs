//! The logic of a neural-network architecture viewer, without its I/O.
//!
//! The viewer shows the blocks and layers of an architecture as a tree beside
//! an OpenGL canvas. This crate decides what the tree holds and which OpenGL
//! calls set the canvas up; it opens no window and calls no OpenGL. A program
//! around it reads the files, runs the toolkit and performs the calls.
//!
//! - [`architecture`] reads a YAML description into the rows of the tree.
//! - [`columns`] names the columns of the tree.
//! - [`calls`] defines the OpenGL calls and replies that pass between this
//!   crate and its driver, and what it means to run a build.
//! - [`shader_routines`] builds shaders and shader programs.
//! - [`visualization`] prepares the canvas and draws its frames.
//! - [`nesting`] measures how deep the nodes of a text nest.
//! - [`info_log`] and [`yaml`] hold what is used of the standard library's
//!   lossy UTF-8 decoder and of the YAML reader.

pub mod architecture;
pub mod calls;
pub mod columns;
pub mod info_log;
pub mod nesting;
pub mod shader_routines;
pub mod visualization;
pub mod yaml;
