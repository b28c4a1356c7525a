//! Verified core of an OpenGL backend for an immediate-mode GUI.
//!
//! The crate never touches a graphics context. It decides *which* graphics
//! calls have to be issued, in which order and with which arguments, and
//! leaves issuing them to the caller:
//!
//! * [`layout`] fixes the binary layout of vertices and indices and encodes
//!   them into the bytes that are uploaded to the GPU;
//! * [`pixel`] turns floating-point coordinates into whole pixels;
//! * [`gl`] is the vocabulary of graphics calls and of their answers;
//! * [`shader`] holds the two shader stages and their sources;
//! * [`draw`] is the frame description handed over by the GUI library;
//! * [`setup`] drives the one-time creation of the GPU objects, one call at
//!   a time, and finishes with a [`renderer::Renderer`]; [`setup_laws`]
//!   states what holds of every setup;
//! * [`renderer`] turns one frame into the list of calls that draws it;
//!   [`buffers`] states which data these calls draw from.
//!
//! Floating-point numbers travel through the crate as their IEEE-754 bit
//! patterns. The crate takes them apart where it needs whole pixels; it
//! does no arithmetic on them.

pub mod buffers;
pub mod draw;
pub mod gl;
pub mod layout;
pub mod pixel;
pub mod renderer;
pub mod setup;
pub mod setup_laws;
pub mod shader;
