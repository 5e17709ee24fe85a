//! Samplers: GL ES 2.0 has no sampler objects, so a sampler is the texture parameters to set
//! whenever a texture is bound with it.
use crate::conversions::{spec_gles2_address_mode, spec_gles2_compare_op, spec_gles2_filter_type};
use crate::gles20;
use crate::gles20::GLenum;
use crate::types::{
    RafxCompareOp, RafxError, RafxFilterType, RafxMipMapMode, RafxResult,
    RafxSamplerDef,
};
use vstd::prelude::*;

verus! {

/// The texture parameters of a sampler.
#[derive(Copy, Clone, Debug, PartialEq, Eq, Structural)]
pub struct RafxSamplerGles2Inner {
    pub gl_mip_map_mode: GLenum,
    pub gl_min_filter: GLenum,
    pub gl_mag_filter: GLenum,
    pub gl_address_mode_s: GLenum,
    pub gl_address_mode_t: GLenum,
}

#[derive(Copy, Clone, Debug, PartialEq, Eq, Structural)]
pub struct RafxSamplerGles2 {
    pub inner: RafxSamplerGles2Inner,
}

/// The minification filter to use on mipmapped textures: it combines the filter within a
/// level with the filter between levels.
pub open spec fn spec_gl_mip_map_mode(min_filter: RafxFilterType, mip_map_mode: RafxMipMapMode) -> GLenum {
    match min_filter {
        RafxFilterType::Nearest => match mip_map_mode {
            RafxMipMapMode::Nearest => gles20::NEAREST_MIPMAP_NEAREST,
            RafxMipMapMode::Linear => gles20::NEAREST_MIPMAP_LINEAR,
        },
        RafxFilterType::Linear => match mip_map_mode {
            RafxMipMapMode::Nearest => gles20::LINEAR_MIPMAP_NEAREST,
            RafxMipMapMode::Linear => gles20::LINEAR_MIPMAP_LINEAR,
        },
    }
}

/// GL ES 2.0 cannot compare in a sampler: only the trivial compare ops are accepted.
pub open spec fn spec_sampler_compare_op_supported(op: RafxCompareOp) -> bool {
    op == RafxCompareOp::Never || op == RafxCompareOp::Always
}

/// What creating a sampler gives: an error for an address mode GL ES 2.0 lacks (u checked
/// before v), else the converted parameters. The w address mode is not used by 2D textures.
pub open spec fn spec_sampler_new(def: RafxSamplerDef) -> RafxResult<RafxSamplerGles2> {
    match (spec_gles2_address_mode(def.address_mode_u), spec_gles2_address_mode(def.address_mode_v)) {
        (None, _) => Err(RafxError::AddressModeNotSupported(def.address_mode_u)),
        (Some(_), None) => Err(RafxError::AddressModeNotSupported(def.address_mode_v)),
        (Some(s), Some(t)) => Ok(
            RafxSamplerGles2 {
                inner: RafxSamplerGles2Inner {
                    gl_mip_map_mode: spec_gl_mip_map_mode(def.min_filter, def.mip_map_mode),
                    gl_min_filter: spec_gles2_filter_type(def.min_filter),
                    gl_mag_filter: spec_gles2_filter_type(def.mag_filter),
                    gl_address_mode_s: s,
                    gl_address_mode_t: t,
                },
            },
        ),
    }
}

impl RafxSamplerGles2 {
    /// Fails on an address mode that GL ES 2.0 lacks. A def whose address modes are supported
    /// must have a trivial compare op.
    pub fn new(sampler_def: &RafxSamplerDef) -> (r: RafxResult<RafxSamplerGles2>)
        requires
            spec_sampler_new(*sampler_def) is Ok ==> spec_sampler_compare_op_supported(
                sampler_def.compare_op,
            ),
        ensures
            r == spec_sampler_new(*sampler_def),
    {
        let gl_mip_map_mode = match sampler_def.min_filter {
            RafxFilterType::Nearest => match sampler_def.mip_map_mode {
                RafxMipMapMode::Nearest => gles20::NEAREST_MIPMAP_NEAREST,
                RafxMipMapMode::Linear => gles20::NEAREST_MIPMAP_LINEAR,
            },
            RafxFilterType::Linear => match sampler_def.mip_map_mode {
                RafxMipMapMode::Nearest => gles20::LINEAR_MIPMAP_NEAREST,
                RafxMipMapMode::Linear => gles20::LINEAR_MIPMAP_LINEAR,
            },
        };

        let gl_min_filter = sampler_def.min_filter.gles2_filter_type();
        let gl_mag_filter = sampler_def.mag_filter.gles2_filter_type();

        let gl_address_mode_s = match sampler_def.address_mode_u.gles2_address_mode() {
            Some(mode) => mode,
            None => {
                return Err(RafxError::AddressModeNotSupported(sampler_def.address_mode_u));
            },
        };
        let gl_address_mode_t = match sampler_def.address_mode_v.gles2_address_mode() {
            Some(mode) => mode,
            None => {
                return Err(RafxError::AddressModeNotSupported(sampler_def.address_mode_v));
            },
        };

        Ok(
            RafxSamplerGles2 {
                inner: RafxSamplerGles2Inner {
                    gl_mip_map_mode,
                    gl_min_filter,
                    gl_mag_filter,
                    gl_address_mode_s,
                    gl_address_mode_t,
                },
            },
        )
    }

    /// The minification filter to set for a texture with the given mip count: the mipmapped
    /// filter when there is more than one level.
    pub fn min_filter_for_mip_count(&self, mip_count: u32) -> (r: GLenum)
        ensures
            r == (if mip_count > 1 {
                self.inner.gl_mip_map_mode
            } else {
                self.inner.gl_min_filter
            }),
    {
        if mip_count > 1 {
            self.inner.gl_mip_map_mode
        } else {
            self.inner.gl_min_filter
        }
    }
}

/// The texture parameters of a sampler of the GL backend, which also keeps the compare op.
#[derive(Copy, Clone, Debug, PartialEq, Eq, Structural)]
pub struct RafxSamplerGlInner {
    pub gl_mip_map_mode: GLenum,
    pub gl_min_filter: GLenum,
    pub gl_mag_filter: GLenum,
    pub gl_address_mode_s: GLenum,
    pub gl_address_mode_t: GLenum,
    pub gl_compare_op: GLenum,
}

#[derive(Copy, Clone, Debug, PartialEq, Eq, Structural)]
pub struct RafxSamplerGl {
    pub inner: RafxSamplerGlInner,
}

impl RafxSamplerGl {
    /// The GL backend's sampler: the parameters of the GL ES 2.0 sampler, with any compare op
    /// converted and kept.
    pub fn new(sampler_def: &RafxSamplerDef) -> (r: RafxResult<RafxSamplerGl>)
        ensures
            match spec_sampler_new(*sampler_def) {
                Ok(s) => r == Ok::<RafxSamplerGl, RafxError>(
                    RafxSamplerGl {
                        inner: RafxSamplerGlInner {
                            gl_mip_map_mode: s.inner.gl_mip_map_mode,
                            gl_min_filter: s.inner.gl_min_filter,
                            gl_mag_filter: s.inner.gl_mag_filter,
                            gl_address_mode_s: s.inner.gl_address_mode_s,
                            gl_address_mode_t: s.inner.gl_address_mode_t,
                            gl_compare_op: spec_gles2_compare_op(sampler_def.compare_op),
                        },
                    },
                ),
                Err(e) => r == Err::<RafxSamplerGl, RafxError>(e),
            },
    {
        let gl_mip_map_mode = match sampler_def.min_filter {
            RafxFilterType::Nearest => match sampler_def.mip_map_mode {
                RafxMipMapMode::Nearest => gles20::NEAREST_MIPMAP_NEAREST,
                RafxMipMapMode::Linear => gles20::NEAREST_MIPMAP_LINEAR,
            },
            RafxFilterType::Linear => match sampler_def.mip_map_mode {
                RafxMipMapMode::Nearest => gles20::LINEAR_MIPMAP_NEAREST,
                RafxMipMapMode::Linear => gles20::LINEAR_MIPMAP_LINEAR,
            },
        };
        let gl_min_filter = sampler_def.min_filter.gles2_filter_type();
        let gl_mag_filter = sampler_def.mag_filter.gles2_filter_type();
        let gl_address_mode_s = match sampler_def.address_mode_u.gles2_address_mode() {
            Some(mode) => mode,
            None => {
                return Err(RafxError::AddressModeNotSupported(sampler_def.address_mode_u));
            },
        };
        let gl_address_mode_t = match sampler_def.address_mode_v.gles2_address_mode() {
            Some(mode) => mode,
            None => {
                return Err(RafxError::AddressModeNotSupported(sampler_def.address_mode_v));
            },
        };
        let gl_compare_op = sampler_def.compare_op.gles2_compare_op();
        Ok(
            RafxSamplerGl {
                inner: RafxSamplerGlInner {
                    gl_mip_map_mode,
                    gl_min_filter,
                    gl_mag_filter,
                    gl_address_mode_s,
                    gl_address_mode_t,
                    gl_compare_op,
                },
            },
        )
    }
}

/// A sampler with a mipmapped minification filter has the same filter within a level as its
/// plain minification filter: NEAREST_MIPMAP_* goes with NEAREST and LINEAR_MIPMAP_* with LINEAR.
pub proof fn lemma_mip_map_mode_agrees_with_min_filter(def: RafxSamplerDef)
    requires
        spec_sampler_new(def) is Ok,
    ensures
        ({
            let s = spec_sampler_new(def)->Ok_0.inner;
            (s.gl_min_filter == gles20::NEAREST <==> (s.gl_mip_map_mode
                == gles20::NEAREST_MIPMAP_NEAREST || s.gl_mip_map_mode
                == gles20::NEAREST_MIPMAP_LINEAR))
        }),
{
}

/// The mipmapped minification filter combines the two filters independently, in GL's
/// numbering from NEAREST_MIPMAP_NEAREST (0x2700): one more for a linear filter within a level,
/// two more for a linear filter between levels. So a linear mip map mode gives a
/// `*_MIPMAP_LINEAR` filter and a nearest one a `*_MIPMAP_NEAREST` filter.
pub proof fn lemma_mip_map_mode_combines_filters(min_filter: RafxFilterType, mip_map_mode: RafxMipMapMode)
    ensures
        spec_gl_mip_map_mode(min_filter, mip_map_mode) == 0x2700u32 + (if min_filter
            == RafxFilterType::Linear {
            1u32
        } else {
            0u32
        }) + (if mip_map_mode == RafxMipMapMode::Linear {
            2u32
        } else {
            0u32
        }),
{
}

/// A created sampler filters between mip levels as its def's mip map mode says and within a
/// level as its def's minification filter says: its mipmapped filter is NEAREST_MIPMAP_NEAREST
/// (0x2700) plus one for a linear minification filter and plus two for a linear mip map mode.
pub proof fn lemma_sampler_mip_map_mode_follows_def(def: RafxSamplerDef)
    requires
        spec_sampler_new(def) is Ok,
    ensures
        spec_sampler_new(def)->Ok_0.inner.gl_mip_map_mode == 0x2700u32 + (if def.min_filter
            == RafxFilterType::Linear {
            1u32
        } else {
            0u32
        }) + (if def.mip_map_mode == RafxMipMapMode::Linear {
            2u32
        } else {
            0u32
        }),
{
    lemma_mip_map_mode_combines_filters(def.min_filter, def.mip_map_mode);
}

} // verus!
