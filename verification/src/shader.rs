use vstd::prelude::*;

verus! {

/// A linked GPU program, identified by the handle the graphics collaborator
/// returned for it.  The handle is an opaque name: the library decides when
/// a program is used, superseded or released, and the collaborator performs
/// those calls.
pub struct ShaderProgram(pub u32);

/// Failure of a shader load, with the diagnostic text retained.  Vertex,
/// fragment and link failures are all reported through the same variant;
/// the log text distinguishes them.
pub enum Error {
    ShaderCompilationError(String),
}

impl Error {
    /// The diagnostic text carried by this error.
    pub fn message(&self) -> (r: &String)
        ensures
            self matches Error::ShaderCompilationError(log) && r@ == log@,
    {
        match self {
            Error::ShaderCompilationError(log) => log,
        }
    }
}

} // verus!
