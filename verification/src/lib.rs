//! Generation of C-callable wrapper functions and SWIG interface-description
//! fragments from annotated struct and function declarations.
//!
//! The crate works on its own model of a parsed declaration: a struct with
//! capability tags, or a function signature with an optional base type for
//! methods. From one declaration it derives
//!
//! * a foreign-callable signature (`lower`), with `self` rewritten to an
//!   explicit pointer parameter and opaque types passed by pointer,
//! * a marshaling body for the wrapper (`synthesize_body`) that recovers the
//!   original arguments and calls the original declaration exactly once,
//! * a SWIG descriptor fragment (code and header text) describing the same
//!   wrapper in the interface-description language, and
//! * a sentinel envelope that carries the descriptor text through
//!   documentation metadata on an inert, reserved-prefixed declaration, with
//!   a decoder that recovers the fragments from a fully expanded program.

pub mod body;
pub mod decl;
pub mod envelope;
pub mod expand;
pub mod lower;
pub mod manifest;
pub mod sample;
pub mod semantics;
pub mod strutil;
pub mod swig;
pub mod tag;
pub mod ty;

pub use tag::SwigTag;
