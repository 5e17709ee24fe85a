//! Shaders: a GL ES 2.0 program is linked from one vertex and one fragment shader, picked from
//! the compiled stages.
use crate::gl_context::{ProgramId, ShaderId};
use crate::shader_module::Gles2CompiledShader;
use crate::types::{RafxError, RafxResult, RafxShaderStageFlags};
use vstd::prelude::*;

verus! {

/// The shaders to link into a program, and the stages they came from.
#[derive(Copy, Clone, Debug, PartialEq, Eq, Structural)]
pub struct ProgramStages {
    pub stage_flags: RafxShaderStageFlags,
    pub vertex_shader_id: ShaderId,
    pub fragment_shader_id: ShaderId,
}

/// A linked program and the shaders it was linked from.
#[derive(Copy, Clone, Debug, PartialEq, Eq, Structural)]
pub struct RafxShaderGl {
    pub stage_flags: RafxShaderStageFlags,
    pub vertex_shader_id: ShaderId,
    pub fragment_shader_id: ShaderId,
    pub program_id: ProgramId,
}

/// The first stages read in order: the union of their flags and the last vertex and fragment
/// shaders among them, or the first stage that is neither.
pub open spec fn spec_scan_stages(stages: Seq<Gles2CompiledShader>) -> RafxResult<
    (u32, Option<ShaderId>, Option<ShaderId>),
>
    decreases stages.len(),
{
    if stages.len() == 0 {
        Ok((0u32, None, None))
    } else {
        match spec_scan_stages(stages.drop_last()) {
            Err(e) => Err(e),
            Ok((flags, vertex, fragment)) => {
                let s = stages.last();
                let flags = flags | s.stage.0;
                if s.stage.0 == RafxShaderStageFlags::VERTEX {
                    Ok((flags, Some(s.shader_id), fragment))
                } else if s.stage.0 == RafxShaderStageFlags::FRAGMENT {
                    Ok((flags, vertex, Some(s.shader_id)))
                } else {
                    Err(RafxError::UnexpectedShaderStage(s.stage))
                }
            },
        }
    }
}

/// The shaders of a program, or why the stages cannot make one.
pub open spec fn spec_program_stages(stages: Seq<Gles2CompiledShader>) -> RafxResult<ProgramStages> {
    match spec_scan_stages(stages) {
        Err(e) => Err(e),
        Ok((flags, vertex, fragment)) => match vertex {
            None => Err(RafxError::MissingVertexShader),
            Some(v) => match fragment {
                None => Err(RafxError::MissingFragmentShader),
                Some(f) => Ok(
                    ProgramStages {
                        stage_flags: RafxShaderStageFlags(flags),
                        vertex_shader_id: v,
                        fragment_shader_id: f,
                    },
                ),
            },
        },
    }
}

pub open spec fn is_vertex_or_fragment(s: Gles2CompiledShader) -> bool {
    s.stage.0 == RafxShaderStageFlags::VERTEX || s.stage.0 == RafxShaderStageFlags::FRAGMENT
}

impl RafxShaderGl {
    /// Picks the shaders of a program from its compiled stages, in order: the last vertex and
    /// the last fragment shader. Fails at the first stage that is neither, then if either is
    /// missing.
    pub fn program_stages(stages: &Vec<Gles2CompiledShader>) -> (r: RafxResult<ProgramStages>)
        ensures
            r == spec_program_stages(stages@),
    {
        let mut flags: u32 = 0;
        let mut vertex: Option<ShaderId> = None;
        let mut fragment: Option<ShaderId> = None;
        let mut i: usize = 0;
        while i < stages.len()
            invariant
                i <= stages@.len(),
                spec_scan_stages(stages@.take(i as int)) == Ok::<
                    (u32, Option<ShaderId>, Option<ShaderId>),
                    RafxError,
                >((flags, vertex, fragment)),
            decreases stages@.len() - i,
        {
            let s = stages[i];
            assert(stages@.take(i + 1).drop_last() =~= stages@.take(i as int));
            flags = flags | s.stage.0;
            if s.stage.0 == RafxShaderStageFlags::VERTEX {
                vertex = Some(s.shader_id);
            } else if s.stage.0 == RafxShaderStageFlags::FRAGMENT {
                fragment = Some(s.shader_id);
            } else {
                proof {
                    lemma_scan_error_stays(stages@, i + 1);
                }
                return Err(RafxError::UnexpectedShaderStage(s.stage));
            }
            i = i + 1;
        }
        assert(stages@.take(stages@.len() as int) =~= stages@);
        match vertex {
            None => Err(RafxError::MissingVertexShader),
            Some(v) => match fragment {
                None => Err(RafxError::MissingFragmentShader),
                Some(f) => Ok(
                    ProgramStages {
                        stage_flags: RafxShaderStageFlags(flags),
                        vertex_shader_id: v,
                        fragment_shader_id: f,
                    },
                ),
            },
        }
    }

    /// The shader of a program linked from the picked stages.
    pub fn new(stages: ProgramStages, program_id: ProgramId) -> (r: RafxShaderGl)
        ensures
            r == (RafxShaderGl {
                stage_flags: stages.stage_flags,
                vertex_shader_id: stages.vertex_shader_id,
                fragment_shader_id: stages.fragment_shader_id,
                program_id,
            }),
    {
        RafxShaderGl {
            stage_flags: stages.stage_flags,
            vertex_shader_id: stages.vertex_shader_id,
            fragment_shader_id: stages.fragment_shader_id,
            program_id,
        }
    }

    pub fn program_id(&self) -> (r: ProgramId)
        ensures
            r == self.program_id,
    {
        self.program_id
    }
}

/// Once a prefix of the stages fails, every longer prefix fails the same way.
proof fn lemma_scan_error_stays(stages: Seq<Gles2CompiledShader>, k: int)
    requires
        0 <= k <= stages.len(),
        spec_scan_stages(stages.take(k)) is Err,
    ensures
        spec_scan_stages(stages) == spec_scan_stages(stages.take(k)),
    decreases stages.len() - k,
{
    if k < stages.len() {
        assert(stages.take(k + 1).drop_last() =~= stages.take(k));
        lemma_scan_error_stays(stages, k + 1);
    } else {
        assert(stages.take(k) =~= stages);
    }
}

/// A scan that succeeds has read only vertex and fragment stages, and has a vertex (fragment)
/// shader exactly when one of them is a vertex (fragment) stage.
proof fn lemma_scan_ok(stages: Seq<Gles2CompiledShader>)
    ensures
        spec_scan_stages(stages) is Ok <==> forall|i: int|
            0 <= i < stages.len() ==> is_vertex_or_fragment(#[trigger] stages[i]),
        spec_scan_stages(stages) matches Ok((flags, vertex, fragment)) ==> {
            &&& (vertex is Some <==> exists|i: int|
                0 <= i < stages.len() && (#[trigger] stages[i]).stage.0
                    == RafxShaderStageFlags::VERTEX)
            &&& (fragment is Some <==> exists|i: int|
                0 <= i < stages.len() && (#[trigger] stages[i]).stage.0
                    == RafxShaderStageFlags::FRAGMENT)
        },
    decreases stages.len(),
{
    if stages.len() > 0 {
        let prefix = stages.drop_last();
        lemma_scan_ok(prefix);
        assert forall|i: int| 0 <= i < prefix.len() implies prefix[i] == stages[i] by {}
        if spec_scan_stages(stages) is Ok {
            assert forall|i: int| 0 <= i < stages.len() implies is_vertex_or_fragment(
                #[trigger] stages[i],
            ) by {
                if i < prefix.len() {
                    assert(prefix[i] == stages[i]);
                }
            }
        }
        if spec_scan_stages(prefix) is Ok && !is_vertex_or_fragment(stages.last()) {
            assert(!is_vertex_or_fragment(stages[stages.len() - 1]));
        }
        if !(spec_scan_stages(prefix) is Ok) {
            let j = choose|j: int| 0 <= j < prefix.len() && !is_vertex_or_fragment(prefix[j]);
            assert(!is_vertex_or_fragment(stages[j]));
        }
        if spec_scan_stages(stages) is Ok {
            let last = stages.len() - 1;
            assert(stages[last] == stages.last());
            assert forall|i: int|
                0 <= i < prefix.len() && (#[trigger] prefix[i]).stage.0
                    == RafxShaderStageFlags::VERTEX implies (stages[i]).stage.0
                == RafxShaderStageFlags::VERTEX by {}
            assert forall|i: int|
                0 <= i < prefix.len() && (#[trigger] prefix[i]).stage.0
                    == RafxShaderStageFlags::FRAGMENT implies (stages[i]).stage.0
                == RafxShaderStageFlags::FRAGMENT by {}
            if exists|i: int|
                0 <= i < stages.len() && (#[trigger] stages[i]).stage.0
                    == RafxShaderStageFlags::VERTEX {
                let i = choose|i: int|
                    0 <= i < stages.len() && (#[trigger] stages[i]).stage.0
                        == RafxShaderStageFlags::VERTEX;
                if i < last {
                    assert(prefix[i] == stages[i]);
                }
            }
            if exists|i: int|
                0 <= i < stages.len() && (#[trigger] stages[i]).stage.0
                    == RafxShaderStageFlags::FRAGMENT {
                let i = choose|i: int|
                    0 <= i < stages.len() && (#[trigger] stages[i]).stage.0
                        == RafxShaderStageFlags::FRAGMENT;
                if i < last {
                    assert(prefix[i] == stages[i]);
                }
            }
        }
    }
}

/// GL ES 2.0 programs need both stages: the stages make a program exactly when each is a
/// vertex or a fragment stage, and there is at least one of each.
pub proof fn lemma_program_needs_vertex_and_fragment(stages: Seq<Gles2CompiledShader>)
    ensures
        spec_program_stages(stages) is Ok <==> {
            &&& forall|i: int| 0 <= i < stages.len() ==> is_vertex_or_fragment(#[trigger] stages[i])
            &&& exists|i: int|
                0 <= i < stages.len() && (#[trigger] stages[i]).stage.0
                    == RafxShaderStageFlags::VERTEX
            &&& exists|i: int|
                0 <= i < stages.len() && (#[trigger] stages[i]).stage.0
                    == RafxShaderStageFlags::FRAGMENT
        },
{
    lemma_scan_ok(stages);
}

} // verus!
