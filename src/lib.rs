//! Frame pipeline of a stereo head-mounted-display renderer: the per-eye
//! slot pools, render targets, command recording plans and the per-tick
//! state machine that hands finished frames to the compositor.
//!
//! GPU and compositor calls are made by the embedding application; this
//! library decides what is called, in which order, and with which handles.
pub mod handles;
pub mod layout;
pub mod commands;
pub mod render_pass;
pub mod swap_chain;
pub mod render_targets;
pub mod frame_slots;
pub mod renderer;
pub mod queue_family;
pub mod device_selection;
pub mod extensions;
pub mod lifecycle;
pub mod util;
