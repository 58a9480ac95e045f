use vstd::prelude::*;

verus! {

/// The static full-screen quad: the vertex-array and vertex-buffer handles
/// the graphics collaborator allocated for it.  Each frame that has a
/// compiled program draws this quad as a four-vertex triangle fan.
pub struct PlaneBuffer {
    pub vao: u32,
    pub vbo: u32,
}

impl PlaneBuffer {
    pub fn new(vao: u32, vbo: u32) -> (p: PlaneBuffer)
        ensures
            p.vao == vao,
            p.vbo == vbo,
    {
        PlaneBuffer { vao, vbo }
    }
}

} // verus!
