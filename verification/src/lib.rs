//! Runtime core of an interactive real-time application: a driving ("game")
//! thread and a render thread advance in lockstep once per frame.
//!
//! The library holds the parts of that core whose correctness matters and is
//! provable: the fixed-timestep clock, the per-frame lifecycle state machine
//! of the driving thread, the render loop's decision logic, and a lockstep
//! model of the rendezvous channel that couples the two threads. Real window
//! polling, thread spawning and channel blocking live outside the library;
//! they feed events in and carry actions out.

pub mod builder;
pub mod framework;
pub mod game;
pub mod lifecycle;
pub mod message;
pub mod render_loop;
pub mod sample;
pub mod time;
