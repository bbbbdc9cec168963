//! Pointer events as the session logic sees them.

use vstd::prelude::*;

verus! {

/// What a pointer event reports.
#[derive(Clone, Copy, Debug, PartialEq, Eq, Structural)]
pub enum PointerEventType {
    MOVE,
    DOWN,
    UP,
    OTHER,
}

/// The button a pointer event is about.
#[derive(Clone, Copy, Debug, PartialEq, Eq, Structural)]
pub enum Button {
    NONE,
    PRIMARY,
    AUXILARY,
    SECONDARY,
}

/// Bit pattern of the double-precision number one.
pub const UNIT_COORDINATE: u64 = 0x3FF0_0000_0000_0000;

/// One pointer or stylus sample.
///
/// `x` and `y` are the position relative to the capture target, each a
/// double-precision number between zero and one, carried as its bit pattern:
/// the session logic hands positions on and never computes with them.
#[derive(Clone, Copy, Debug, PartialEq, Eq, Structural)]
pub struct PointerEvent {
    pub event_type: PointerEventType,
    pub button: Button,
    pub is_primary: bool,
    pub x: u64,
    pub y: u64,
}

/// Whether `bits` is the bit pattern of a double between zero and one.
///
/// Doubles that are not negative are ordered as their bit patterns are, so
/// the range is the patterns from that of zero, which is 0, to that of one.
/// Negative zero has its sign bit set and is not in the range.
pub open spec fn is_unit_coordinate(bits: u64) -> bool {
    bits <= UNIT_COORDINATE
}

impl PointerEvent {
    /// Whether both coordinates lie between zero and one.
    pub open spec fn is_normalized(self) -> bool {
        is_unit_coordinate(self.x) && is_unit_coordinate(self.y)
    }

    /// Tells whether both coordinates lie between zero and one.
    pub fn normalized(&self) -> (r: bool)
        ensures
            r == self.is_normalized(),
    {
        self.x <= UNIT_COORDINATE && self.y <= UNIT_COORDINATE
    }
}

} // verus!
