//! What pointer positions and captured frames are relative to.

use vstd::prelude::*;

verus! {

/// The capture target: the whole desktop, or one window of it.
///
/// A window is named by the identifier the window system gave it. Whether it
/// still exists, and where it lies, is for the platform to find out each time.
#[derive(Clone, Copy, Debug, PartialEq, Eq, Structural)]
pub enum WindowInfo {
    Desktop,
    Window { id: u64 },
}

} // verus!
