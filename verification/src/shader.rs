//! Source text of one GPU program.  Compiling it needs a GPU context and
//! is the renderer's business; this crate only carries the sources around.

use vstd::prelude::*;

verus! {

/// The source strings of one shader program: a vertex stage, a fragment
/// stage, and an optional geometry stage, under a short name.
#[derive(Clone, Copy, Debug)]
pub struct ShaderSrc {
    pub stem: &'static str,
    pub vertex: &'static str,
    pub fragment: &'static str,
    pub geometry: Option<&'static str>,
}

impl ShaderSrc {
    pub fn new(
        stem: &'static str,
        vertex: &'static str,
        fragment: &'static str,
        geometry: Option<&'static str>,
    ) -> (r: ShaderSrc)
        ensures
            r == (ShaderSrc { stem, vertex, fragment, geometry }),
    {
        ShaderSrc { stem, vertex, fragment, geometry }
    }

    /// Whether the program carries a geometry stage.
    pub fn has_geometry(&self) -> (r: bool)
        ensures
            r == (self.geometry is Some),
    {
        self.geometry.is_some()
    }
}

} // verus!
