//! Shader modules: GLSL source, compiled once, for one stage.
use crate::gl_context::ShaderId;
use crate::gles20::{self, GLenum};
use crate::types::{RafxError, RafxResult, RafxShaderStageFlags};
use vstd::prelude::*;
use vstd::string::StringSliceAdditionalSpecFns;

verus! {

/// A compiled shader object and the stage it was compiled for.
#[derive(Copy, Clone, Debug, PartialEq, Eq, Structural)]
pub struct Gles2CompiledShader {
    pub shader_id: ShaderId,
    pub stage: RafxShaderStageFlags,
}

impl Gles2CompiledShader {
    pub fn stage(&self) -> (r: RafxShaderStageFlags)
        ensures
            r == self.stage,
    {
        self.stage
    }

    pub fn shader_id(&self) -> (r: ShaderId)
        ensures
            r == self.shader_id,
    {
        self.shader_id
    }
}

/// GLSL source and, once compiled, its shader.
pub struct RafxShaderModuleGles2 {
    pub src: Vec<u8>,
    pub compiled_shader: Option<Gles2CompiledShader>,
}

/// What compiling a module for a stage takes.
#[derive(Copy, Clone, Debug, PartialEq, Eq, Structural)]
pub enum ShaderCompileStep {
    /// The module was compiled for the stage before: this is the shader.
    Compiled(Gles2CompiledShader),
    /// GL must compile the source as a shader of this type.
    Compile(GLenum),
}

/// The GL shader type of a stage: only a lone vertex or fragment stage has one.
pub open spec fn spec_gl_stage(stage: RafxShaderStageFlags) -> Option<GLenum> {
    if stage.0 == RafxShaderStageFlags::VERTEX {
        Some(gles20::VERTEX_SHADER)
    } else if stage.0 == RafxShaderStageFlags::FRAGMENT {
        Some(gles20::FRAGMENT_SHADER)
    } else {
        None
    }
}

/// What compiling a module that holds `compiled` for a stage takes: the shader compiled before
/// if it was for this stage, else an error; with nothing compiled yet, the GL shader type of the
/// stage, if it has one.
pub open spec fn spec_compile_step(
    compiled: Option<Gles2CompiledShader>,
    stage: RafxShaderStageFlags,
) -> RafxResult<ShaderCompileStep> {
    match compiled {
        Some(c) => if c.stage == stage {
            Ok(ShaderCompileStep::Compiled(c))
        } else {
            Err(RafxError::ShaderStageMismatch(c.stage, stage))
        },
        None => match spec_gl_stage(stage) {
            Some(gl_stage) => Ok(ShaderCompileStep::Compile(gl_stage)),
            None => Err(RafxError::UnexpectedShaderStage(stage)),
        },
    }
}

impl RafxShaderModuleGles2 {
    /// The source holds no NUL byte, and a module was only ever compiled for a vertex or a
    /// fragment stage.
    pub open spec fn wf(&self) -> bool {
        &&& !self.src@.contains(0u8)
        &&& self.compiled_shader matches Some(c) ==> spec_gl_stage(c.stage) is Some
    }

    /// A module of GLSL source; fails if the source holds a NUL byte.
    pub fn new_from_src(src: &str) -> (r: RafxResult<RafxShaderModuleGles2>)
        ensures
            match r {
                Ok(m) => m.wf() && m.src@ == src.spec_bytes() && m.compiled_shader is None && !src.spec_bytes().contains(0u8),
                Err(e) => e == RafxError::ShaderSourceHasNul && src.spec_bytes().contains(0u8),
            },
    {
        let bytes = src.as_bytes();
        let mut v: Vec<u8> = Vec::new();
        let mut i: usize = 0;
        while i < bytes.len()
            invariant
                i <= bytes@.len(),
                v@ == bytes@.take(i as int),
                !v@.contains(0u8),
                bytes@ == src.spec_bytes(),
            decreases bytes@.len() - i,
        {
            if bytes[i] == 0 {
                assert(bytes@[i as int] == 0u8);
                assert(bytes@.contains(0u8));
                return Err(RafxError::ShaderSourceHasNul);
            }
            v.push(bytes[i]);
            assert(v@ =~= bytes@.take(i + 1));
            i = i + 1;
        }
        assert(bytes@.take(i as int) =~= bytes@);
        Ok(RafxShaderModuleGles2 { src: v, compiled_shader: None })
    }

    /// The source.
    pub fn src(&self) -> (r: &Vec<u8>)
        ensures
            *r == self.src,
    {
        &self.src
    }

    /// The first half of compiling the module for a stage: the shader compiled before, if it
    /// was for this stage, else the GL shader type to compile it as. Fails if it was compiled
    /// for another stage, or if the stage is not a lone vertex or fragment stage.
    pub fn compile_shader(&self, stage: RafxShaderStageFlags) -> (r: RafxResult<ShaderCompileStep>)
        ensures
            r == spec_compile_step(self.compiled_shader, stage),
    {
        match self.compiled_shader {
            Some(c) => {
                if c.stage.0 == stage.0 {
                    Ok(ShaderCompileStep::Compiled(c))
                } else {
                    Err(RafxError::ShaderStageMismatch(c.stage, stage))
                }
            },
            None => {
                if stage.0 == RafxShaderStageFlags::VERTEX {
                    Ok(ShaderCompileStep::Compile(gles20::VERTEX_SHADER))
                } else if stage.0 == RafxShaderStageFlags::FRAGMENT {
                    Ok(ShaderCompileStep::Compile(gles20::FRAGMENT_SHADER))
                } else {
                    Err(RafxError::UnexpectedShaderStage(stage))
                }
            },
        }
    }

    /// The second half: records the shader GL compiled for the stage, and returns it.
    pub fn finish_compile_shader(&mut self, stage: RafxShaderStageFlags, shader_id: ShaderId) -> (r:
        Gles2CompiledShader)
        requires
            old(self).compiled_shader is None,
            spec_gl_stage(stage) is Some,
        ensures
            old(self).wf() ==> final(self).wf(),
            r == (Gles2CompiledShader { shader_id, stage }),
            final(self).compiled_shader == Some(r),
            final(self).src == old(self).src,
    {
        let compiled = Gles2CompiledShader { shader_id, stage };
        self.compiled_shader = Some(compiled);
        compiled
    }
}

/// A module is compiled once: after GL compiled it for a stage, compiling it for that stage again
/// gives back the same shader, and compiling it for any other stage fails.
pub proof fn lemma_module_compiles_once(
    stage: RafxShaderStageFlags,
    shader_id: ShaderId,
    other: RafxShaderStageFlags,
)
    requires
        spec_gl_stage(stage) is Some,
        other != stage,
    ensures
        ({
            let compiled = Gles2CompiledShader { shader_id, stage };
            &&& spec_compile_step(Some(compiled), stage) == Ok::<ShaderCompileStep, RafxError>(
                ShaderCompileStep::Compiled(compiled),
            )
            &&& spec_compile_step(Some(compiled), other) == Err::<ShaderCompileStep, RafxError>(
                RafxError::ShaderStageMismatch(stage, other),
            )
        }),
{
}

} // verus!
