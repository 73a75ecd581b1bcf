//! The inert stand-in for a session: deterministic no-op behaviour for
//! exercising consumers without a real terminal.
//!
//! It owns no channels and no background task, only the fixed dimensions of
//! an in-memory virtual surface that the host draws on in place of a real
//! terminal.

use vstd::prelude::*;

use crate::event::Event;

verus! {

/// The width of the inert session's virtual surface, in cells.
pub const TEST_SURFACE_WIDTH: u16 = 80;

/// The height of the inert session's virtual surface, in cells.
pub const TEST_SURFACE_HEIGHT: u16 = 25;

/// An inert session: same operations as the real one, trivial semantics.
pub struct TestTui {
    pub width: u16,
    pub height: u16,
}

impl TestTui {
    /// A fresh inert session with the fixed-size virtual surface.
    pub fn new() -> (t: Self)
        ensures
            t.width == TEST_SURFACE_WIDTH,
            t.height == TEST_SURFACE_HEIGHT,
    {
        TestTui { width: TEST_SURFACE_WIDTH, height: TEST_SURFACE_HEIGHT }
    }

    /// The next event of an inert session is always `Tick`, immediately,
    /// with no external input: it never blocks and never fails.
    pub fn next(&self) -> (e: Event)
        ensures
            e == Event::Tick,
    {
        Event::Tick
    }
}

} // verus!
