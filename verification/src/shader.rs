//! Shader ownership boundary for renderer material implementations.
//!
//! This module contains no shader compiler or native API calls. A backend
//! consumes [`ShaderModule`] values and provides compilation and reflection.

use vstd::prelude::*;

verus! {

/// A programmable shader stage required by a renderer material.
#[derive(Clone, Copy, Debug, PartialEq, Eq, Structural)]
pub enum ShaderStage {
    /// Vertex processing.
    Vertex,
    /// Fragment processing.
    Fragment,
}

/// Source owned by a renderer material before backend compilation.
#[derive(Clone, Copy, Debug)]
pub struct ShaderModule {
    source: &'static str,
    stage: ShaderStage,
}

impl ShaderModule {
    /// The stage this module targets.
    pub closed spec fn spec_stage(self) -> ShaderStage {
        self.stage
    }

    /// The source text this module carries.
    pub closed spec fn spec_source(self) -> Seq<char> {
        self.source@
    }

    /// Creates a shader module description for a material implementation.
    pub fn new(stage: ShaderStage, source: &'static str) -> (module: Self)
        ensures
            module.spec_stage() == stage,
            module.spec_source() == source@,
    {
        Self { source, stage }
    }

    /// Returns the shader stage this source targets.
    pub fn stage(self) -> (stage: ShaderStage)
        ensures
            stage == self.spec_stage(),
    {
        self.stage
    }

    /// Returns the source that a later backend will compile and reflect.
    pub fn source(self) -> (source: &'static str)
        ensures
            source@ == self.spec_source(),
    {
        self.source
    }
}

/// Returns the source modules selected by the current basic material: a
/// vertex module followed by a fragment module, each with a non-empty source.
pub fn basic_material_modules() -> (modules: [ShaderModule; 2])
    ensures
        modules[0].spec_stage() == ShaderStage::Vertex,
        modules[1].spec_stage() == ShaderStage::Fragment,
        modules[0].spec_source() == "// BasicMaterial vertex shader is not implemented yet."@,
        modules[1].spec_source() == "// BasicMaterial fragment shader is not implemented yet."@,
        modules[0].spec_source().len() > 0,
        modules[1].spec_source().len() > 0,
{
    proof {
        reveal_strlit("// BasicMaterial vertex shader is not implemented yet.");
        reveal_strlit("// BasicMaterial fragment shader is not implemented yet.");
    }
    [
        ShaderModule::new(ShaderStage::Vertex, "// BasicMaterial vertex shader is not implemented yet."),
        ShaderModule::new(ShaderStage::Fragment, "// BasicMaterial fragment shader is not implemented yet."),
    ]
}

} // verus!
