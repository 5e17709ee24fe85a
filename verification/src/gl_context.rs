//! Names of GL objects, and the loading of GL entry points with their fallbacks.
use crate::gles20;
use vstd::prelude::*;

verus! {

/// Identifies the window a GL context draws to: a hash of its platform handles.
#[derive(Copy, Clone, Debug, PartialEq, Eq, Structural)]
pub struct WindowHash(pub u64);

/// A GL buffer object name; `gles20::NONE` is no buffer.
#[derive(Copy, Clone, Debug, PartialEq, Eq, Structural)]
pub struct BufferId(pub u32);

/// A GL vertex array object name; `gles20::NONE` is none.
#[derive(Copy, Clone, Debug, PartialEq, Eq, Structural)]
pub struct VertexArrayObjectId(pub u32);

/// A GL texture name; `gles20::NONE` is no texture.
#[derive(Copy, Clone, Debug, PartialEq, Eq, Structural)]
pub struct TextureId(pub u32);

/// A GL framebuffer name; `gles20::NONE` is the default framebuffer.
#[derive(Copy, Clone, Debug, PartialEq, Eq, Structural)]
pub struct FramebufferId(pub u32);

/// A GL renderbuffer name; `gles20::NONE` is none, and stands for the swapchain's image.
#[derive(Copy, Clone, Debug, PartialEq, Eq, Structural)]
pub struct RenderbufferId(pub u32);

/// A GL shader name; `gles20::NONE` is none.
#[derive(Copy, Clone, Debug, PartialEq, Eq, Structural)]
pub struct ShaderId(pub u32);

/// A GL program name; `gles20::NONE` is no program.
#[derive(Copy, Clone, Debug, PartialEq, Eq, Structural)]
pub struct ProgramId(pub u32);

/// A uniform location within a linked program.
#[derive(Copy, Clone, Debug, PartialEq, Eq, Structural)]
pub struct LocationId(pub u32);

/// The buffer length to use when reading uniform names back from a program, as
/// GL_ACTIVE_UNIFORM_MAX_LENGTH reports it.
#[derive(Copy, Clone, Debug, PartialEq, Eq, Structural)]
pub struct GetActiveUniformMaxNameLengthHint(pub u32);

/// A uniform as a program reports it: its name, its element count and its GL type.
#[derive(Clone, Debug)]
pub struct ActiveUniformInfo {
    pub name: Vec<u8>,
    pub size: u32,
    pub ty: u32,
}

/// A loaded GL entry point: the address that calls go to, and whether the driver supplied it.
/// When it did not, the address is 0 and calls through it fail with "function was not loaded".
#[derive(Copy, Clone, Debug, PartialEq, Eq, Structural)]
pub struct FnPtr {
    f: usize,
    is_loaded: bool,
}

impl FnPtr {
    pub closed spec fn spec_address(self) -> usize {
        self.f
    }

    pub closed spec fn spec_is_loaded(self) -> bool {
        self.is_loaded
    }

    /// Creates a `FnPtr` from a load attempt; a null address means the driver lacks it.
    pub fn new(ptr: usize) -> (r: FnPtr)
        ensures
            r.spec_is_loaded() == (ptr != 0),
            r.spec_address() == ptr,
    {
        if ptr == 0 {
            FnPtr { f: 0, is_loaded: false }
        } else {
            FnPtr { f: ptr, is_loaded: true }
        }
    }

    /// Returns `true` if the function has been successfully loaded.
    pub fn is_loaded(&self) -> (r: bool)
        ensures
            r == self.spec_is_loaded(),
    {
        self.is_loaded
    }

    pub fn address(&self) -> (r: usize)
        ensures
            r == self.spec_address(),
    {
        self.f
    }
}

/// The address that loading a symbol resolves to: the primary name's address if the loader
/// knows it, else the first fallback name's address that is not null, else null. `lookups[0]`
/// is what the loader answered for the primary name and `lookups[i + 1]` for the i-th fallback.
pub open spec fn spec_resolve_symbol(lookups: Seq<usize>) -> usize
    decreases lookups.len(),
{
    if lookups.len() == 0 {
        0
    } else if lookups[0] != 0 {
        lookups[0]
    } else {
        spec_resolve_symbol(lookups.drop_first())
    }
}

/// Chooses a GL entry point's address from the loader's answers for its primary name and
/// its fallback names, in order: the first one that is not null.
pub fn resolve_symbol(lookups: &Vec<usize>) -> (r: usize)
    ensures
        r == spec_resolve_symbol(lookups@),
{
    let mut i: usize = 0;
    assert(lookups@.skip(0) =~= lookups@);
    while i < lookups.len()
        invariant
            i <= lookups.len(),
            spec_resolve_symbol(lookups@) == spec_resolve_symbol(lookups@.skip(i as int)),
        decreases lookups.len() - i,
    {
        assert(lookups@.skip(i as int).drop_first() =~= lookups@.skip(i + 1));
        if lookups[i] != 0 {
            return lookups[i];
        }
        i = i + 1;
    }
    0
}


/// An entry point resolves to the loader's answer for the first of its names that the loader
/// knows, and to null exactly when the loader knows none of them.
pub proof fn lemma_resolves_to_first_known_name(lookups: Seq<usize>)
    ensures
        (spec_resolve_symbol(lookups) == 0) <==> forall|i: int|
            0 <= i < lookups.len() ==> #[trigger] lookups[i] == 0,
        spec_resolve_symbol(lookups) != 0 ==> exists|k: int|
            0 <= k < lookups.len() && #[trigger] lookups[k] == spec_resolve_symbol(lookups)
                && forall|i: int| 0 <= i < k ==> #[trigger] lookups[i] == 0,
    decreases lookups.len(),
{
    if lookups.len() > 0 {
        let rest = lookups.drop_first();
        lemma_resolves_to_first_known_name(rest);
        assert forall|i: int| 0 < i < lookups.len() implies lookups[i] == rest[i - 1] by {}
        if lookups[0] == 0 && spec_resolve_symbol(rest) != 0 {
            let k = choose|k: int|
                0 <= k < rest.len() && #[trigger] rest[k] == spec_resolve_symbol(rest) && forall|
                    i: int,
                | 0 <= i < k ==> #[trigger] rest[i] == 0;
            assert(lookups[k + 1] == rest[k]);
            assert forall|i: int| 0 <= i < k + 1 implies #[trigger] lookups[i] == 0 by {
                if i > 0 {
                    assert(lookups[i] == rest[i - 1]);
                }
            }
        }
        if lookups[0] == 0 && spec_resolve_symbol(rest) == 0 {
            assert forall|i: int| 0 <= i < lookups.len() implies #[trigger] lookups[i] == 0 by {
                if i > 0 {
                    assert(lookups[i] == rest[i - 1]);
                }
            }
        }
    }
}

/// A GL boolean.
pub type GLboolean = u8;

pub const GL_TRUE: GLboolean = 1;

pub const GL_FALSE: GLboolean = 0;

/// The GL boolean of a `bool`.
pub fn to_gl_bool(value: bool) -> (r: GLboolean)
    ensures
        r == (if value {
            GL_TRUE
        } else {
            GL_FALSE
        }),
{
    if value {
        GL_TRUE
    } else {
        GL_FALSE
    }
}

} // verus!
