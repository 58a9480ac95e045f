use vstd::prelude::*;

verus! {

/// The configuration supplied once at startup: an optional initial shader
/// file, the debounce window in milliseconds, and a verbose-logging flag.
pub struct Cli {
    /// Path to the shader file.
    pub file: Option<String>,
    /// The amount of time (in milliseconds) under which consecutive file
    /// events are combined.
    pub debouncer_ms: u32,
    /// Print all debug logs to the terminal.
    pub debug: bool,
}

/// The debounce window used when none is given.
pub const DEFAULT_DEBOUNCER_MS: u32 = 250;

impl Default for Cli {
    /// No initial file, the default debounce window, quiet logging.
    fn default() -> (c: Cli)
        ensures
            c.file is None,
            c.debouncer_ms == DEFAULT_DEBOUNCER_MS,
            !c.debug,
    {
        Cli { file: None, debouncer_ms: DEFAULT_DEBOUNCER_MS, debug: false }
    }
}

} // verus!
