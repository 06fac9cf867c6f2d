//! Typed access to memory-mapped hardware registers for bare-metal programs.
//!
//! The crate has three parts:
//!
//! * [`iotype`] compiles the description of a peripheral's register block into
//!   the accessors of that block, and refuses a description with a register
//!   that is not naturally aligned;
//! * [`video`] guards the one-shot bring-up of the video interface and hands
//!   out the capability tokens that stand for a completed bring-up;
//! * [`driver`] holds the decisions of the build driver: which output a
//!   platform supports, what the toolchain is asked, and what its answer names.

pub mod driver;
pub mod iotype;
pub mod text;
pub mod video;
