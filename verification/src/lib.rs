//! Live shader-preview engine: a debounced file-change watcher restricted
//! to the active shader file, a shader-compilation state machine that never
//! leaves the renderer in an invalid state, and the per-frame decisions
//! that tie them together.  Window creation, the platform event pump and
//! the graphics API itself are external collaborators, driven by a thin
//! shell around this library: the engine decides, the shell performs.

pub mod cli;
pub mod compile;
pub mod file_watcher;
pub mod plane_buffer;
pub mod playground;
pub mod reloaded_shader;
pub mod shader;
pub mod watch_tracker;
