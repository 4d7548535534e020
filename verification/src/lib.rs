//! A per-frame bridge that lets an immediate-mode GUI toolkit render inside a
//! window owned by a host application.
//!
//! The library owns the logic of the bridge: translating host-native input
//! events into a toolkit-neutral ordered batch with exact coordinate-space
//! conversion, edge-triggered keyboard-focus handoff, and a painter state
//! machine that decides, per frame, exactly which GPU calls to issue (texture
//! uploads only on version change, scissor-clipped indexed draws per mesh,
//! idempotent teardown). The unverifiable edges — the host's windowing
//! callbacks, the GUI toolkit's run pass, and the raw GPU driver calls — live
//! outside the library and act only on the plain values and command lists the
//! library hands them.

pub mod frame;
pub mod geometry;
pub mod gpu;
pub mod input;
pub mod keymap;
pub mod painter;
