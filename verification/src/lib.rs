//! Verified core of a thin wrapper around the `libxdo` X11 automation
//! library.
//!
//! The native library does the real work: it opens a display connection,
//! synthesizes keyboard events, and tracks modifier state.  Everything the
//! wrapper itself decides or computes lives here, with contracts: the error
//! taxonomy and its rendering, translation of the native status sentinels,
//! conversion of delays to microseconds, the NUL check that guards every
//! string handed to the native layer, and the UTF-8 decoding of window
//! names.  The unverifiable edge — the `unsafe` calls into the native
//! symbols and the scoped release of native pointers — stays in a thin
//! unverified shell that forwards every decision to this crate.

pub mod delay;
pub mod digits;
pub mod error;
pub mod handle;
pub mod modifiers;
pub mod status;
pub mod text;
pub mod window;
