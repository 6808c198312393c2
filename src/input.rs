//! The keys that the interactive views react to.
use vstd::prelude::*;

verus! {

/// A key press, reduced to the keys that change something.
#[derive(Debug, Clone, Copy, PartialEq, Eq, Structural)]
pub enum Key {
    ArrowUp,
    ArrowDown,
    ArrowLeft,
    ArrowRight,
    /// The key labelled `-` on a US layout (`+` on a Swedish one).
    Minus,
    /// The key labelled `/` on a US layout (`-` on a Swedish one).
    Slash,
    ShiftLeft,
    Space,
    KeyU,
    KeyD,
    Other,
}

} // verus!
