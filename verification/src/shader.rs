//! Where the shader sources are kept.
//!
//! The renderer reads two GLSL sources, one per stage, from a fixed directory
//! below the working directory. This module names the files; reading them is
//! left to the caller.

use vstd::prelude::*;

verus! {

/// A programmable stage of the pipeline.
#[derive(Clone, Copy, Debug, PartialEq, Eq, Structural)]
pub enum Stage {
    Vertex,
    Fragment,
}

/// The directory that holds the shader sources, with its trailing separator.
pub open spec fn shader_dir() -> Seq<char> {
    "src/shaders/"@
}

/// The file name of the source of `stage`.
pub open spec fn stage_file(stage: Stage) -> Seq<char> {
    match stage {
        Stage::Vertex => "vertex.glsl"@,
        Stage::Fragment => "fragment.glsl"@,
    }
}

impl Stage {
    /// The file name of the source of this stage.
    pub fn file_name(self) -> (name: &'static str)
        ensures
            name@ == stage_file(self),
    {
        match self {
            Stage::Vertex => "vertex.glsl",
            Stage::Fragment => "fragment.glsl",
        }
    }

    /// The path of the source of this stage.
    pub fn path(self) -> (path: String)
        ensures
            path@ == shader_dir() + stage_file(self),
    {
        shader_path(self.file_name())
    }
}

/// The path of the shader source called `name`: the shader directory followed
/// by `name`, unchanged.
pub fn shader_path(name: &str) -> (path: String)
    ensures
        path@ == shader_dir() + name@,
{
    String::from_str("src/shaders/").concat(name)
}

} // verus!
