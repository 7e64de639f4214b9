//! The platform-facing event loop contract: the driver that owns the
//! native connection implements it and runs the application's loop.

use vstd::prelude::*;

verus! {

/// A native event loop. `loop_events` blocks pumping native events until
/// `exit` was recorded, and returns the exit code it was given.
pub trait EventLoop {
    fn loop_events(&self) -> i32;

    fn exit(&self, code: i32);
}

} // verus!
