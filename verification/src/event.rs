//! Wire encoding of the events this provider publishes.

use vstd::prelude::*;

verus! {

/// Byte that marks a frame on the shared bus as a layout-change event,
/// distinguishing it from the other event kinds that share the bus.
pub const LAYOUT_EVENT_KIND: u8 = 2;

/// The two-byte wire frame for a layout change: the event-kind byte, then
/// the registry index of the newly active layout.
pub open spec fn layout_frame(index: u8) -> Seq<u8> {
    seq![LAYOUT_EVENT_KIND, index]
}

/// Encode a layout-change event for the bus.
pub fn encode_layout_event(index: u8) -> (frame: Vec<u8>)
    ensures
        frame@ == layout_frame(index),
{
    let mut frame: Vec<u8> = Vec::new();
    frame.push(LAYOUT_EVENT_KIND);
    frame.push(index);
    proof {
        assert(frame@ =~= layout_frame(index));
    }
    frame
}

} // verus!
