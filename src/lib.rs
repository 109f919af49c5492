//! A frame-driven render-loop core: the shared color state, the logical
//! surface configuration of a renderer, the per-frame draw plan, and the
//! event-loop state machine. GPU and window work is carried out by the
//! caller from the plain values these types hand back.
use vstd::prelude::*;

pub mod color;
pub mod renderer;
pub mod driver;

verus! {

} // verus!
