//! Verified core of a small OpenGL ray-tracing viewer: the string and
//! inventory exercises, the bookkeeping of GPU objects, the step-by-step
//! protocol that builds shader programs, and the window-input state machine.
pub mod gpu;
pub mod program;
pub mod tasks;
pub mod viewer;
