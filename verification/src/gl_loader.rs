//! Loading the GL ES 2.0 entry points through a platform loader.
use crate::gl_context::{spec_resolve_symbol, resolve_symbol, FnPtr};
use vstd::prelude::*;

verus! {

/// The number of GL ES 2.0 entry points.
pub const GLES2_FUNCTION_COUNT: usize = 142;

/// A GL ES 2.0 entry point: its name, and the extension names to try, in order, when the
/// loader lacks it.
pub struct GlSymbol {
    pub name: &'static str,
    pub fallbacks: Vec<&'static str>,
}

/// The names of the GL ES 2.0 entry points, in the order of `Gles2::functions`: each with the
/// extension names to try, in order, when the loader lacks it.
pub open spec fn spec_gles2_symbol_table() -> Seq<(&'static str, Seq<&'static str>)> {
    seq![
        ("glActiveTexture", seq!["glActiveTextureARB"]),
        ("glAttachShader", seq!["glAttachObjectARB"]),
        ("glBindAttribLocation", seq!["glBindAttribLocationARB"]),
        ("glBindBuffer", seq!["glBindBufferARB"]),
        ("glBindFramebuffer", seq![]),
        ("glBindRenderbuffer", seq![]),
        ("glBindTexture", seq!["glBindTextureEXT"]),
        ("glBlendColor", seq!["glBlendColorEXT"]),
        ("glBlendEquation", seq!["glBlendEquationEXT"]),
        ("glBlendEquationSeparate", seq!["glBlendEquationSeparateEXT"]),
        ("glBlendFunc", seq![]),
        ("glBlendFuncSeparate", seq!["glBlendFuncSeparateEXT", "glBlendFuncSeparateINGR"]),
        ("glBufferData", seq!["glBufferDataARB"]),
        ("glBufferSubData", seq!["glBufferSubDataARB"]),
        ("glCheckFramebufferStatus", seq!["glCheckFramebufferStatusEXT"]),
        ("glClear", seq![]),
        ("glClearColor", seq![]),
        ("glClearDepthf", seq!["glClearDepthfOES"]),
        ("glClearStencil", seq![]),
        ("glColorMask", seq![]),
        ("glCompileShader", seq!["glCompileShaderARB"]),
        ("glCompressedTexImage2D", seq!["glCompressedTexImage2DARB"]),
        ("glCompressedTexSubImage2D", seq!["glCompressedTexSubImage2DARB"]),
        ("glCopyTexImage2D", seq!["glCopyTexImage2DEXT"]),
        ("glCopyTexSubImage2D", seq!["glCopyTexSubImage2DEXT"]),
        ("glCreateProgram", seq!["glCreateProgramObjectARB"]),
        ("glCreateShader", seq!["glCreateShaderObjectARB"]),
        ("glCullFace", seq![]),
        ("glDeleteBuffers", seq!["glDeleteBuffersARB"]),
        ("glDeleteFramebuffers", seq!["glDeleteFramebuffersEXT"]),
        ("glDeleteProgram", seq![]),
        ("glDeleteRenderbuffers", seq!["glDeleteRenderbuffersEXT"]),
        ("glDeleteShader", seq![]),
        ("glDeleteTextures", seq![]),
        ("glDepthFunc", seq![]),
        ("glDepthMask", seq![]),
        ("glDepthRangef", seq!["glDepthRangefOES"]),
        ("glDetachShader", seq!["glDetachObjectARB"]),
        ("glDisable", seq![]),
        ("glDisableVertexAttribArray", seq!["glDisableVertexAttribArrayARB"]),
        ("glDrawArrays", seq!["glDrawArraysEXT"]),
        ("glDrawElements", seq![]),
        ("glEnable", seq![]),
        ("glEnableVertexAttribArray", seq!["glEnableVertexAttribArrayARB"]),
        ("glFinish", seq![]),
        ("glFlush", seq![]),
        ("glFramebufferRenderbuffer", seq!["glFramebufferRenderbufferEXT"]),
        ("glFramebufferTexture2D", seq!["glFramebufferTexture2DEXT"]),
        ("glFrontFace", seq![]),
        ("glGenBuffers", seq!["glGenBuffersARB"]),
        ("glGenFramebuffers", seq!["glGenFramebuffersEXT"]),
        ("glGenRenderbuffers", seq!["glGenRenderbuffersEXT"]),
        ("glGenTextures", seq![]),
        ("glGenerateMipmap", seq!["glGenerateMipmapEXT"]),
        ("glGetActiveAttrib", seq!["glGetActiveAttribARB"]),
        ("glGetActiveUniform", seq!["glGetActiveUniformARB"]),
        ("glGetAttachedShaders", seq![]),
        ("glGetAttribLocation", seq!["glGetAttribLocationARB"]),
        ("glGetBooleanv", seq![]),
        ("glGetBufferParameteriv", seq!["glGetBufferParameterivARB"]),
        ("glGetError", seq![]),
        ("glGetFloatv", seq![]),
        ("glGetFramebufferAttachmentParameteriv", seq!["glGetFramebufferAttachmentParameterivEXT"]),
        ("glGetIntegerv", seq![]),
        ("glGetProgramInfoLog", seq![]),
        ("glGetProgramiv", seq![]),
        ("glGetRenderbufferParameteriv", seq!["glGetRenderbufferParameterivEXT"]),
        ("glGetShaderInfoLog", seq![]),
        ("glGetShaderPrecisionFormat", seq![]),
        ("glGetShaderSource", seq!["glGetShaderSourceARB"]),
        ("glGetShaderiv", seq![]),
        ("glGetString", seq![]),
        ("glGetTexParameterfv", seq![]),
        ("glGetTexParameteriv", seq![]),
        ("glGetUniformLocation", seq!["glGetUniformLocationARB"]),
        ("glGetUniformfv", seq!["glGetUniformfvARB"]),
        ("glGetUniformiv", seq!["glGetUniformivARB"]),
        ("glGetVertexAttribPointerv", seq!["glGetVertexAttribPointervARB", "glGetVertexAttribPointervNV"]),
        ("glGetVertexAttribfv", seq!["glGetVertexAttribfvARB", "glGetVertexAttribfvNV"]),
        ("glGetVertexAttribiv", seq!["glGetVertexAttribivARB", "glGetVertexAttribivNV"]),
        ("glHint", seq![]),
        ("glIsBuffer", seq!["glIsBufferARB"]),
        ("glIsEnabled", seq![]),
        ("glIsFramebuffer", seq!["glIsFramebufferEXT"]),
        ("glIsProgram", seq![]),
        ("glIsRenderbuffer", seq!["glIsRenderbufferEXT"]),
        ("glIsShader", seq![]),
        ("glIsTexture", seq![]),
        ("glLineWidth", seq![]),
        ("glLinkProgram", seq!["glLinkProgramARB"]),
        ("glPixelStorei", seq![]),
        ("glPolygonOffset", seq![]),
        ("glReadPixels", seq![]),
        ("glReleaseShaderCompiler", seq![]),
        ("glRenderbufferStorage", seq!["glRenderbufferStorageEXT"]),
        ("glSampleCoverage", seq!["glSampleCoverageARB"]),
        ("glScissor", seq![]),
        ("glShaderBinary", seq![]),
        ("glShaderSource", seq!["glShaderSourceARB"]),
        ("glStencilFunc", seq![]),
        ("glStencilFuncSeparate", seq![]),
        ("glStencilMask", seq![]),
        ("glStencilMaskSeparate", seq![]),
        ("glStencilOp", seq![]),
        ("glStencilOpSeparate", seq!["glStencilOpSeparateATI"]),
        ("glTexImage2D", seq![]),
        ("glTexParameterf", seq![]),
        ("glTexParameterfv", seq![]),
        ("glTexParameteri", seq![]),
        ("glTexParameteriv", seq![]),
        ("glTexSubImage2D", seq!["glTexSubImage2DEXT"]),
        ("glUniform1f", seq!["glUniform1fARB"]),
        ("glUniform1fv", seq!["glUniform1fvARB"]),
        ("glUniform1i", seq!["glUniform1iARB"]),
        ("glUniform1iv", seq!["glUniform1ivARB"]),
        ("glUniform2f", seq!["glUniform2fARB"]),
        ("glUniform2fv", seq!["glUniform2fvARB"]),
        ("glUniform2i", seq!["glUniform2iARB"]),
        ("glUniform2iv", seq!["glUniform2ivARB"]),
        ("glUniform3f", seq!["glUniform3fARB"]),
        ("glUniform3fv", seq!["glUniform3fvARB"]),
        ("glUniform3i", seq!["glUniform3iARB"]),
        ("glUniform3iv", seq!["glUniform3ivARB"]),
        ("glUniform4f", seq!["glUniform4fARB"]),
        ("glUniform4fv", seq!["glUniform4fvARB"]),
        ("glUniform4i", seq!["glUniform4iARB"]),
        ("glUniform4iv", seq!["glUniform4ivARB"]),
        ("glUniformMatrix2fv", seq!["glUniformMatrix2fvARB"]),
        ("glUniformMatrix3fv", seq!["glUniformMatrix3fvARB"]),
        ("glUniformMatrix4fv", seq!["glUniformMatrix4fvARB"]),
        ("glUseProgram", seq!["glUseProgramObjectARB"]),
        ("glValidateProgram", seq!["glValidateProgramARB"]),
        ("glVertexAttrib1f", seq!["glVertexAttrib1fARB", "glVertexAttrib1fNV"]),
        ("glVertexAttrib1fv", seq!["glVertexAttrib1fvARB", "glVertexAttrib1fvNV"]),
        ("glVertexAttrib2f", seq!["glVertexAttrib2fARB", "glVertexAttrib2fNV"]),
        ("glVertexAttrib2fv", seq!["glVertexAttrib2fvARB", "glVertexAttrib2fvNV"]),
        ("glVertexAttrib3f", seq!["glVertexAttrib3fARB", "glVertexAttrib3fNV"]),
        ("glVertexAttrib3fv", seq!["glVertexAttrib3fvARB", "glVertexAttrib3fvNV"]),
        ("glVertexAttrib4f", seq!["glVertexAttrib4fARB", "glVertexAttrib4fNV"]),
        ("glVertexAttrib4fv", seq!["glVertexAttrib4fvARB", "glVertexAttrib4fvNV"]),
        ("glVertexAttribPointer", seq!["glVertexAttribPointerARB"]),
        ("glViewport", seq![]),
    ]
}

/// A symbol as a table entry: its name and its fallback names.
pub open spec fn spec_symbol_entry(s: GlSymbol) -> (&'static str, Seq<&'static str>) {
    (s.name, s.fallbacks@)
}

/// The GL ES 2.0 entry points, in the order of `Gles2::functions`.
#[verifier::rlimit(100)]
#[verifier::spinoff_prover]
pub fn gles2_symbols() -> (r: Vec<GlSymbol>)
    ensures
        r@.len() == GLES2_FUNCTION_COUNT,
        forall|i: int|
            0 <= i < r@.len() ==> #[trigger] spec_symbol_entry(r@[i])
                == spec_gles2_symbol_table()[i],
{
    let r = vec![
        GlSymbol { name: "glActiveTexture", fallbacks: vec!["glActiveTextureARB"] },
        GlSymbol { name: "glAttachShader", fallbacks: vec!["glAttachObjectARB"] },
        GlSymbol { name: "glBindAttribLocation", fallbacks: vec!["glBindAttribLocationARB"] },
        GlSymbol { name: "glBindBuffer", fallbacks: vec!["glBindBufferARB"] },
        GlSymbol { name: "glBindFramebuffer", fallbacks: Vec::new() },
        GlSymbol { name: "glBindRenderbuffer", fallbacks: Vec::new() },
        GlSymbol { name: "glBindTexture", fallbacks: vec!["glBindTextureEXT"] },
        GlSymbol { name: "glBlendColor", fallbacks: vec!["glBlendColorEXT"] },
        GlSymbol { name: "glBlendEquation", fallbacks: vec!["glBlendEquationEXT"] },
        GlSymbol { name: "glBlendEquationSeparate", fallbacks: vec!["glBlendEquationSeparateEXT"] },
        GlSymbol { name: "glBlendFunc", fallbacks: Vec::new() },
        GlSymbol { name: "glBlendFuncSeparate", fallbacks: vec!["glBlendFuncSeparateEXT", "glBlendFuncSeparateINGR"] },
        GlSymbol { name: "glBufferData", fallbacks: vec!["glBufferDataARB"] },
        GlSymbol { name: "glBufferSubData", fallbacks: vec!["glBufferSubDataARB"] },
        GlSymbol { name: "glCheckFramebufferStatus", fallbacks: vec!["glCheckFramebufferStatusEXT"] },
        GlSymbol { name: "glClear", fallbacks: Vec::new() },
        GlSymbol { name: "glClearColor", fallbacks: Vec::new() },
        GlSymbol { name: "glClearDepthf", fallbacks: vec!["glClearDepthfOES"] },
        GlSymbol { name: "glClearStencil", fallbacks: Vec::new() },
        GlSymbol { name: "glColorMask", fallbacks: Vec::new() },
        GlSymbol { name: "glCompileShader", fallbacks: vec!["glCompileShaderARB"] },
        GlSymbol { name: "glCompressedTexImage2D", fallbacks: vec!["glCompressedTexImage2DARB"] },
        GlSymbol { name: "glCompressedTexSubImage2D", fallbacks: vec!["glCompressedTexSubImage2DARB"] },
        GlSymbol { name: "glCopyTexImage2D", fallbacks: vec!["glCopyTexImage2DEXT"] },
        GlSymbol { name: "glCopyTexSubImage2D", fallbacks: vec!["glCopyTexSubImage2DEXT"] },
        GlSymbol { name: "glCreateProgram", fallbacks: vec!["glCreateProgramObjectARB"] },
        GlSymbol { name: "glCreateShader", fallbacks: vec!["glCreateShaderObjectARB"] },
        GlSymbol { name: "glCullFace", fallbacks: Vec::new() },
        GlSymbol { name: "glDeleteBuffers", fallbacks: vec!["glDeleteBuffersARB"] },
        GlSymbol { name: "glDeleteFramebuffers", fallbacks: vec!["glDeleteFramebuffersEXT"] },
        GlSymbol { name: "glDeleteProgram", fallbacks: Vec::new() },
        GlSymbol { name: "glDeleteRenderbuffers", fallbacks: vec!["glDeleteRenderbuffersEXT"] },
        GlSymbol { name: "glDeleteShader", fallbacks: Vec::new() },
        GlSymbol { name: "glDeleteTextures", fallbacks: Vec::new() },
        GlSymbol { name: "glDepthFunc", fallbacks: Vec::new() },
        GlSymbol { name: "glDepthMask", fallbacks: Vec::new() },
        GlSymbol { name: "glDepthRangef", fallbacks: vec!["glDepthRangefOES"] },
        GlSymbol { name: "glDetachShader", fallbacks: vec!["glDetachObjectARB"] },
        GlSymbol { name: "glDisable", fallbacks: Vec::new() },
        GlSymbol { name: "glDisableVertexAttribArray", fallbacks: vec!["glDisableVertexAttribArrayARB"] },
        GlSymbol { name: "glDrawArrays", fallbacks: vec!["glDrawArraysEXT"] },
        GlSymbol { name: "glDrawElements", fallbacks: Vec::new() },
        GlSymbol { name: "glEnable", fallbacks: Vec::new() },
        GlSymbol { name: "glEnableVertexAttribArray", fallbacks: vec!["glEnableVertexAttribArrayARB"] },
        GlSymbol { name: "glFinish", fallbacks: Vec::new() },
        GlSymbol { name: "glFlush", fallbacks: Vec::new() },
        GlSymbol { name: "glFramebufferRenderbuffer", fallbacks: vec!["glFramebufferRenderbufferEXT"] },
        GlSymbol { name: "glFramebufferTexture2D", fallbacks: vec!["glFramebufferTexture2DEXT"] },
        GlSymbol { name: "glFrontFace", fallbacks: Vec::new() },
        GlSymbol { name: "glGenBuffers", fallbacks: vec!["glGenBuffersARB"] },
        GlSymbol { name: "glGenFramebuffers", fallbacks: vec!["glGenFramebuffersEXT"] },
        GlSymbol { name: "glGenRenderbuffers", fallbacks: vec!["glGenRenderbuffersEXT"] },
        GlSymbol { name: "glGenTextures", fallbacks: Vec::new() },
        GlSymbol { name: "glGenerateMipmap", fallbacks: vec!["glGenerateMipmapEXT"] },
        GlSymbol { name: "glGetActiveAttrib", fallbacks: vec!["glGetActiveAttribARB"] },
        GlSymbol { name: "glGetActiveUniform", fallbacks: vec!["glGetActiveUniformARB"] },
        GlSymbol { name: "glGetAttachedShaders", fallbacks: Vec::new() },
        GlSymbol { name: "glGetAttribLocation", fallbacks: vec!["glGetAttribLocationARB"] },
        GlSymbol { name: "glGetBooleanv", fallbacks: Vec::new() },
        GlSymbol { name: "glGetBufferParameteriv", fallbacks: vec!["glGetBufferParameterivARB"] },
        GlSymbol { name: "glGetError", fallbacks: Vec::new() },
        GlSymbol { name: "glGetFloatv", fallbacks: Vec::new() },
        GlSymbol { name: "glGetFramebufferAttachmentParameteriv", fallbacks: vec!["glGetFramebufferAttachmentParameterivEXT"] },
        GlSymbol { name: "glGetIntegerv", fallbacks: Vec::new() },
        GlSymbol { name: "glGetProgramInfoLog", fallbacks: Vec::new() },
        GlSymbol { name: "glGetProgramiv", fallbacks: Vec::new() },
        GlSymbol { name: "glGetRenderbufferParameteriv", fallbacks: vec!["glGetRenderbufferParameterivEXT"] },
        GlSymbol { name: "glGetShaderInfoLog", fallbacks: Vec::new() },
        GlSymbol { name: "glGetShaderPrecisionFormat", fallbacks: Vec::new() },
        GlSymbol { name: "glGetShaderSource", fallbacks: vec!["glGetShaderSourceARB"] },
        GlSymbol { name: "glGetShaderiv", fallbacks: Vec::new() },
        GlSymbol { name: "glGetString", fallbacks: Vec::new() },
        GlSymbol { name: "glGetTexParameterfv", fallbacks: Vec::new() },
        GlSymbol { name: "glGetTexParameteriv", fallbacks: Vec::new() },
        GlSymbol { name: "glGetUniformLocation", fallbacks: vec!["glGetUniformLocationARB"] },
        GlSymbol { name: "glGetUniformfv", fallbacks: vec!["glGetUniformfvARB"] },
        GlSymbol { name: "glGetUniformiv", fallbacks: vec!["glGetUniformivARB"] },
        GlSymbol { name: "glGetVertexAttribPointerv", fallbacks: vec!["glGetVertexAttribPointervARB", "glGetVertexAttribPointervNV"] },
        GlSymbol { name: "glGetVertexAttribfv", fallbacks: vec!["glGetVertexAttribfvARB", "glGetVertexAttribfvNV"] },
        GlSymbol { name: "glGetVertexAttribiv", fallbacks: vec!["glGetVertexAttribivARB", "glGetVertexAttribivNV"] },
        GlSymbol { name: "glHint", fallbacks: Vec::new() },
        GlSymbol { name: "glIsBuffer", fallbacks: vec!["glIsBufferARB"] },
        GlSymbol { name: "glIsEnabled", fallbacks: Vec::new() },
        GlSymbol { name: "glIsFramebuffer", fallbacks: vec!["glIsFramebufferEXT"] },
        GlSymbol { name: "glIsProgram", fallbacks: Vec::new() },
        GlSymbol { name: "glIsRenderbuffer", fallbacks: vec!["glIsRenderbufferEXT"] },
        GlSymbol { name: "glIsShader", fallbacks: Vec::new() },
        GlSymbol { name: "glIsTexture", fallbacks: Vec::new() },
        GlSymbol { name: "glLineWidth", fallbacks: Vec::new() },
        GlSymbol { name: "glLinkProgram", fallbacks: vec!["glLinkProgramARB"] },
        GlSymbol { name: "glPixelStorei", fallbacks: Vec::new() },
        GlSymbol { name: "glPolygonOffset", fallbacks: Vec::new() },
        GlSymbol { name: "glReadPixels", fallbacks: Vec::new() },
        GlSymbol { name: "glReleaseShaderCompiler", fallbacks: Vec::new() },
        GlSymbol { name: "glRenderbufferStorage", fallbacks: vec!["glRenderbufferStorageEXT"] },
        GlSymbol { name: "glSampleCoverage", fallbacks: vec!["glSampleCoverageARB"] },
        GlSymbol { name: "glScissor", fallbacks: Vec::new() },
        GlSymbol { name: "glShaderBinary", fallbacks: Vec::new() },
        GlSymbol { name: "glShaderSource", fallbacks: vec!["glShaderSourceARB"] },
        GlSymbol { name: "glStencilFunc", fallbacks: Vec::new() },
        GlSymbol { name: "glStencilFuncSeparate", fallbacks: Vec::new() },
        GlSymbol { name: "glStencilMask", fallbacks: Vec::new() },
        GlSymbol { name: "glStencilMaskSeparate", fallbacks: Vec::new() },
        GlSymbol { name: "glStencilOp", fallbacks: Vec::new() },
        GlSymbol { name: "glStencilOpSeparate", fallbacks: vec!["glStencilOpSeparateATI"] },
        GlSymbol { name: "glTexImage2D", fallbacks: Vec::new() },
        GlSymbol { name: "glTexParameterf", fallbacks: Vec::new() },
        GlSymbol { name: "glTexParameterfv", fallbacks: Vec::new() },
        GlSymbol { name: "glTexParameteri", fallbacks: Vec::new() },
        GlSymbol { name: "glTexParameteriv", fallbacks: Vec::new() },
        GlSymbol { name: "glTexSubImage2D", fallbacks: vec!["glTexSubImage2DEXT"] },
        GlSymbol { name: "glUniform1f", fallbacks: vec!["glUniform1fARB"] },
        GlSymbol { name: "glUniform1fv", fallbacks: vec!["glUniform1fvARB"] },
        GlSymbol { name: "glUniform1i", fallbacks: vec!["glUniform1iARB"] },
        GlSymbol { name: "glUniform1iv", fallbacks: vec!["glUniform1ivARB"] },
        GlSymbol { name: "glUniform2f", fallbacks: vec!["glUniform2fARB"] },
        GlSymbol { name: "glUniform2fv", fallbacks: vec!["glUniform2fvARB"] },
        GlSymbol { name: "glUniform2i", fallbacks: vec!["glUniform2iARB"] },
        GlSymbol { name: "glUniform2iv", fallbacks: vec!["glUniform2ivARB"] },
        GlSymbol { name: "glUniform3f", fallbacks: vec!["glUniform3fARB"] },
        GlSymbol { name: "glUniform3fv", fallbacks: vec!["glUniform3fvARB"] },
        GlSymbol { name: "glUniform3i", fallbacks: vec!["glUniform3iARB"] },
        GlSymbol { name: "glUniform3iv", fallbacks: vec!["glUniform3ivARB"] },
        GlSymbol { name: "glUniform4f", fallbacks: vec!["glUniform4fARB"] },
        GlSymbol { name: "glUniform4fv", fallbacks: vec!["glUniform4fvARB"] },
        GlSymbol { name: "glUniform4i", fallbacks: vec!["glUniform4iARB"] },
        GlSymbol { name: "glUniform4iv", fallbacks: vec!["glUniform4ivARB"] },
        GlSymbol { name: "glUniformMatrix2fv", fallbacks: vec!["glUniformMatrix2fvARB"] },
        GlSymbol { name: "glUniformMatrix3fv", fallbacks: vec!["glUniformMatrix3fvARB"] },
        GlSymbol { name: "glUniformMatrix4fv", fallbacks: vec!["glUniformMatrix4fvARB"] },
        GlSymbol { name: "glUseProgram", fallbacks: vec!["glUseProgramObjectARB"] },
        GlSymbol { name: "glValidateProgram", fallbacks: vec!["glValidateProgramARB"] },
        GlSymbol { name: "glVertexAttrib1f", fallbacks: vec!["glVertexAttrib1fARB", "glVertexAttrib1fNV"] },
        GlSymbol { name: "glVertexAttrib1fv", fallbacks: vec!["glVertexAttrib1fvARB", "glVertexAttrib1fvNV"] },
        GlSymbol { name: "glVertexAttrib2f", fallbacks: vec!["glVertexAttrib2fARB", "glVertexAttrib2fNV"] },
        GlSymbol { name: "glVertexAttrib2fv", fallbacks: vec!["glVertexAttrib2fvARB", "glVertexAttrib2fvNV"] },
        GlSymbol { name: "glVertexAttrib3f", fallbacks: vec!["glVertexAttrib3fARB", "glVertexAttrib3fNV"] },
        GlSymbol { name: "glVertexAttrib3fv", fallbacks: vec!["glVertexAttrib3fvARB", "glVertexAttrib3fvNV"] },
        GlSymbol { name: "glVertexAttrib4f", fallbacks: vec!["glVertexAttrib4fARB", "glVertexAttrib4fNV"] },
        GlSymbol { name: "glVertexAttrib4fv", fallbacks: vec!["glVertexAttrib4fvARB", "glVertexAttrib4fvNV"] },
        GlSymbol { name: "glVertexAttribPointer", fallbacks: vec!["glVertexAttribPointerARB"] },
        GlSymbol { name: "glViewport", fallbacks: Vec::new() },
    ];
    assert(r@.map_values(|s: GlSymbol| spec_symbol_entry(s)) =~~= spec_gles2_symbol_table());
    r
}

/// The `k`th name to ask the loader for an entry point: its own name, then its fallbacks.
pub open spec fn spec_lookup_name(symbol: GlSymbol, k: int) -> &'static str {
    if k == 0 {
        symbol.name
    } else {
        symbol.fallbacks@[k - 1]
    }
}

pub fn lookup_name(symbol: &GlSymbol, k: usize) -> (r: &'static str)
    requires
        k <= symbol.fallbacks@.len(),
    ensures
        r == spec_lookup_name(*symbol, k as int),
{
    if k == 0 {
        symbol.name
    } else {
        symbol.fallbacks[k - 1]
    }
}

/// Which name to ask the loader for next, given its answers so far for an entry point: the
/// next in order, until an answer is not null or every name was asked.
pub open spec fn spec_next_lookup(symbol: GlSymbol, answers: Seq<usize>) -> Option<usize> {
    if (exists|i: int| 0 <= i < answers.len() && #[trigger] answers[i] != 0) || answers.len()
        >= symbol.fallbacks@.len() + 1 {
        None
    } else {
        Some(answers.len() as usize)
    }
}

pub fn next_lookup(symbol: &GlSymbol, answers: &Vec<usize>) -> (r: Option<usize>)
    ensures
        r == spec_next_lookup(*symbol, answers@),
{
    let mut i: usize = 0;
    while i < answers.len()
        invariant
            i <= answers@.len(),
            forall|j: int| 0 <= j < i ==> #[trigger] answers@[j] == 0,
        decreases answers@.len() - i,
    {
        if answers[i] != 0 {
            return None;
        }
        i = i + 1;
    }
    if answers.len() > symbol.fallbacks.len() {
        None
    } else {
        Some(answers.len())
    }
}

/// The answers gathered by asking, in order, while every answer so far was null, when the
/// loader answers `all[k]` for the `k`th name.
pub open spec fn spec_lazy_answers(all: Seq<usize>) -> Seq<usize>
    decreases all.len(),
{
    if all.len() == 0 {
        Seq::empty()
    } else if all[0] != 0 {
        seq![all[0]]
    } else {
        seq![0usize] + spec_lazy_answers(all.drop_first())
    }
}

proof fn lemma_lazy_answers_shape(all: Seq<usize>)
    ensures
        spec_lazy_answers(all).len() <= all.len(),
        all.len() > 0 ==> spec_lazy_answers(all).len() > 0,
        forall|i: int|
            0 <= i < spec_lazy_answers(all).len() ==> #[trigger] spec_lazy_answers(all)[i]
                == all[i],
        forall|i: int|
            0 <= i < spec_lazy_answers(all).len() - 1 ==> #[trigger] spec_lazy_answers(all)[i]
                == 0,
        spec_lazy_answers(all).len() < all.len() ==> spec_lazy_answers(all).last() != 0,
        spec_resolve_symbol(spec_lazy_answers(all)) == spec_resolve_symbol(all),
    decreases all.len(),
{
    if all.len() > 0 && all[0] == 0 {
        let rest = all.drop_first();
        lemma_lazy_answers_shape(rest);
        let l = spec_lazy_answers(all);
        assert(l == seq![0usize] + spec_lazy_answers(rest));
        assert(l.drop_first() =~= spec_lazy_answers(rest));
        assert forall|i: int| 0 <= i < l.len() implies #[trigger] l[i] == all[i] by {
            if i > 0 {
                assert(l[i] == spec_lazy_answers(rest)[i - 1]);
            }
        }
        assert forall|i: int| 0 <= i < l.len() - 1 implies #[trigger] l[i] == 0 by {
            if i > 0 {
                assert(l[i] == spec_lazy_answers(rest)[i - 1]);
            }
        }
    }
}

/// Loading asks the loader lazily: for an entry point whose names the loader answers with
/// `all`, the asking goes name by name in order, stops at the first answer that is not null
/// (or when every name was asked), and the entry point resolves as if every name had been
/// asked.
pub proof fn lemma_lookups_are_lazy(symbol: GlSymbol, all: Seq<usize>)
    requires
        all.len() == symbol.fallbacks@.len() + 1,
    ensures
        ({
            let asked = spec_lazy_answers(all);
            &&& forall|k: int|
                0 <= k < asked.len() ==> spec_next_lookup(symbol, #[trigger] asked.take(k))
                    == Some(k as usize)
            &&& spec_next_lookup(symbol, asked) == None::<usize>
            &&& forall|k: int| 0 <= k < asked.len() ==> #[trigger] asked[k] == all[k]
            &&& spec_resolve_symbol(asked) == spec_resolve_symbol(all)
        }),
{
    lemma_lazy_answers_shape(all);
    let asked = spec_lazy_answers(all);
    assert forall|k: int| 0 <= k < asked.len() implies spec_next_lookup(
        symbol,
        #[trigger] asked.take(k),
    ) == Some(k as usize) by {
        let t = asked.take(k);
        assert forall|i: int| 0 <= i < t.len() implies #[trigger] t[i] == 0 by {
            assert(t[i] == asked[i]);
        }
    }
    if asked.len() < all.len() {
        assert(asked[asked.len() - 1] != 0);
    }
}

/// The loaded GL ES 2.0 entry points, in the order of `gles2_symbols()`.
pub struct Gles2 {
    pub functions: Vec<FnPtr>,
}

impl Gles2 {
    /// Loads each entry point from what the loader answered: `lookups[i]` holds the addresses
    /// it gave for the `i`th symbol's name and then for each of its fallbacks, 0 where it knew
    /// none. An entry point takes the first address that is not 0, and is not loaded if there
    /// is none.
    pub fn load_with(lookups: &Vec<Vec<usize>>) -> (r: Gles2)
        ensures
            r.functions@.len() == lookups@.len(),
            forall|i: int|
                0 <= i < lookups@.len() ==> {
                    &&& (#[trigger] r.functions@[i]).spec_address() == spec_resolve_symbol(
                        lookups@[i]@,
                    )
                    &&& r.functions@[i].spec_is_loaded() == (spec_resolve_symbol(lookups@[i]@)
                        != 0)
                },
    {
        let mut functions: Vec<FnPtr> = Vec::new();
        let mut i: usize = 0;
        while i < lookups.len()
            invariant
                i <= lookups@.len(),
                functions@.len() == i,
                forall|j: int|
                    0 <= j < i ==> {
                        &&& (#[trigger] functions@[j]).spec_address() == spec_resolve_symbol(
                            lookups@[j]@,
                        )
                        &&& functions@[j].spec_is_loaded() == (spec_resolve_symbol(lookups@[j]@)
                            != 0)
                    },
            decreases lookups@.len() - i,
        {
            functions.push(FnPtr::new(resolve_symbol(&lookups[i])));
            i = i + 1;
        }
        Gles2 { functions }
    }

    /// The entry point at `index` of `gles2_symbols()`.
    pub fn function(&self, index: usize) -> (r: FnPtr)
        requires
            index < self.functions@.len(),
        ensures
            r == self.functions@[index as int],
    {
        self.functions[index]
    }
}

} // verus!
