//! A minimal runtime substrate for freestanding programs.
//!
//! The crate models the thin layer such a program needs from a C-style
//! runtime: null-terminated string primitives, typed heap management with
//! single-owner pointers, append-only output streams, the panic diagnostic
//! path, and the native entry-point adapter. Everything here is pure glue
//! over plain values, stated in contracts and verified; the unverifiable
//! edges (the real process streams, process abort) live with the embedder.

pub mod cstr;
pub mod decimal;
pub mod diag;
pub mod entry;
pub mod heap;
pub mod stream;
