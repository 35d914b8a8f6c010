//! Conversion of ASCII text into virtual key-code sequences.
//!
//! The crate maps each input byte to a `(code, requires_shift)` pair on a
//! fixed QWERTY layout and tracks a single shift state across the input,
//! emitting one shift code at each transition edge, so that a run of
//! shift-requiring characters is bracketed by exactly two shift emissions.

pub mod classify;
pub mod convert;

pub use classify::ErrorCodes;
pub use convert::KeyError;
pub use convert::VK_SHIFT;
pub use convert::to_keystrokes_mut;
pub use convert::to_keystrokes_new;
