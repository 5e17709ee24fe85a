//! Facts about the GL types that uniform fields can have: which are allowed in a uniform
//! block, how many bytes each takes, and which glUniform* entry point sets it.
use crate::gles20;
use crate::gles20::GLenum;
use vstd::prelude::*;

verus! {

/// The scalar, vector and matrix types that a uniform block field may have.
pub open spec fn spec_is_uniform_buffer_field_type(gl_type: GLenum) -> bool {
    gl_type == gles20::INT || gl_type == gles20::BOOL || gl_type == gles20::FLOAT || gl_type
        == gles20::INT_VEC2 || gl_type == gles20::BOOL_VEC2 || gl_type == gles20::FLOAT_VEC2
        || gl_type == gles20::INT_VEC3 || gl_type == gles20::BOOL_VEC3 || gl_type
        == gles20::FLOAT_VEC3 || gl_type == gles20::INT_VEC4 || gl_type == gles20::BOOL_VEC4
        || gl_type == gles20::FLOAT_VEC4 || gl_type == gles20::FLOAT_MAT2 || gl_type
        == gles20::FLOAT_MAT3 || gl_type == gles20::FLOAT_MAT4
}

/// Bytes a field of the type takes: four per component, with three-component vectors padded
/// to four and matrices laid out as columns of four components.
pub open spec fn spec_byte_size_of_type(gl_type: GLenum) -> u32 {
    if gl_type == gles20::INT || gl_type == gles20::BOOL || gl_type == gles20::FLOAT {
        4
    } else if gl_type == gles20::INT_VEC2 || gl_type == gles20::BOOL_VEC2 || gl_type
        == gles20::FLOAT_VEC2 {
        8
    } else if gl_type == gles20::FLOAT_MAT2 {
        32
    } else if gl_type == gles20::FLOAT_MAT3 {
        48
    } else if gl_type == gles20::FLOAT_MAT4 {
        64
    } else {
        16
    }
}

pub fn is_uniform_buffer_field_type(gl_type: GLenum) -> (r: bool)
    ensures
        r == spec_is_uniform_buffer_field_type(gl_type),
{
    match gl_type {
        gles20::INT | gles20::BOOL | gles20::FLOAT | gles20::INT_VEC2 | gles20::BOOL_VEC2
        | gles20::FLOAT_VEC2 | gles20::INT_VEC3 | gles20::BOOL_VEC3 | gles20::FLOAT_VEC3
        | gles20::INT_VEC4 | gles20::BOOL_VEC4 | gles20::FLOAT_VEC4 | gles20::FLOAT_MAT2
        | gles20::FLOAT_MAT3 | gles20::FLOAT_MAT4 => true,
        _ => false,
    }
}

/// Defined on the uniform block field types only; other types are a programming error.
pub fn byte_size_of_type(gl_type: GLenum) -> (r: u32)
    requires
        spec_is_uniform_buffer_field_type(gl_type),
    ensures
        r == spec_byte_size_of_type(gl_type),
{
    match gl_type {
        gles20::INT | gles20::BOOL | gles20::FLOAT => 4,
        gles20::INT_VEC2 | gles20::BOOL_VEC2 | gles20::FLOAT_VEC2 => 8,
        gles20::FLOAT_MAT2 => 32,
        gles20::FLOAT_MAT3 => 48,
        gles20::FLOAT_MAT4 => 64,
        _ => 16,
    }
}

/// The glUniform* entry point that uploads a field.
#[derive(Copy, Clone, Debug, PartialEq, Eq, Structural)]
pub enum UniformSetter {
    Uniform1iv,
    Uniform1fv,
    Uniform2iv,
    Uniform2fv,
    Uniform3iv,
    Uniform3fv,
    Uniform4iv,
    Uniform4fv,
    UniformMatrix2fv,
    UniformMatrix3fv,
    UniformMatrix4fv,
}

/// Booleans are uploaded through the integer entry points.
pub open spec fn spec_uniform_setter(gl_type: GLenum) -> UniformSetter {
    if gl_type == gles20::INT || gl_type == gles20::BOOL {
        UniformSetter::Uniform1iv
    } else if gl_type == gles20::FLOAT {
        UniformSetter::Uniform1fv
    } else if gl_type == gles20::INT_VEC2 || gl_type == gles20::BOOL_VEC2 {
        UniformSetter::Uniform2iv
    } else if gl_type == gles20::FLOAT_VEC2 {
        UniformSetter::Uniform2fv
    } else if gl_type == gles20::INT_VEC3 || gl_type == gles20::BOOL_VEC3 {
        UniformSetter::Uniform3iv
    } else if gl_type == gles20::FLOAT_VEC3 {
        UniformSetter::Uniform3fv
    } else if gl_type == gles20::INT_VEC4 || gl_type == gles20::BOOL_VEC4 {
        UniformSetter::Uniform4iv
    } else if gl_type == gles20::FLOAT_VEC4 {
        UniformSetter::Uniform4fv
    } else if gl_type == gles20::FLOAT_MAT2 {
        UniformSetter::UniformMatrix2fv
    } else if gl_type == gles20::FLOAT_MAT3 {
        UniformSetter::UniformMatrix3fv
    } else {
        UniformSetter::UniformMatrix4fv
    }
}

/// Chooses the entry point that `set_uniform` calls for a field of the given type. Defined on
/// the uniform block field types only.
pub fn uniform_setter(gl_type: GLenum) -> (r: UniformSetter)
    requires
        spec_is_uniform_buffer_field_type(gl_type),
    ensures
        r == spec_uniform_setter(gl_type),
{
    match gl_type {
        gles20::INT | gles20::BOOL => UniformSetter::Uniform1iv,
        gles20::FLOAT => UniformSetter::Uniform1fv,
        gles20::INT_VEC2 | gles20::BOOL_VEC2 => UniformSetter::Uniform2iv,
        gles20::FLOAT_VEC2 => UniformSetter::Uniform2fv,
        gles20::INT_VEC3 | gles20::BOOL_VEC3 => UniformSetter::Uniform3iv,
        gles20::FLOAT_VEC3 => UniformSetter::Uniform3fv,
        gles20::INT_VEC4 | gles20::BOOL_VEC4 => UniformSetter::Uniform4iv,
        gles20::FLOAT_VEC4 => UniformSetter::Uniform4fv,
        gles20::FLOAT_MAT2 => UniformSetter::UniformMatrix2fv,
        gles20::FLOAT_MAT3 => UniformSetter::UniformMatrix3fv,
        _ => UniformSetter::UniformMatrix4fv,
    }
}

/// Every uniform block field type has a size that is a positive multiple of four bytes, at
/// most a four-by-four float matrix.
pub proof fn lemma_field_sizes_are_words(gl_type: GLenum)
    requires
        spec_is_uniform_buffer_field_type(gl_type),
    ensures
        spec_byte_size_of_type(gl_type) % 4 == 0,
        4 <= spec_byte_size_of_type(gl_type) <= 64,
{
}

/// Whether the components of a field of the type are floats.
pub open spec fn spec_type_is_float(gl_type: GLenum) -> bool {
    gl_type == gles20::FLOAT || gl_type == gles20::FLOAT_VEC2 || gl_type == gles20::FLOAT_VEC3
        || gl_type == gles20::FLOAT_VEC4 || gl_type == gles20::FLOAT_MAT2 || gl_type
        == gles20::FLOAT_MAT3 || gl_type == gles20::FLOAT_MAT4
}

/// Whether the type is a matrix.
pub open spec fn spec_type_is_matrix(gl_type: GLenum) -> bool {
    gl_type == gles20::FLOAT_MAT2 || gl_type == gles20::FLOAT_MAT3 || gl_type
        == gles20::FLOAT_MAT4
}

/// How many components a value of the type has: one for a scalar, n for an n-vector, n * n for
/// an n-by-n matrix.
pub open spec fn spec_type_component_count(gl_type: GLenum) -> int {
    if gl_type == gles20::INT || gl_type == gles20::BOOL || gl_type == gles20::FLOAT {
        1
    } else if gl_type == gles20::INT_VEC2 || gl_type == gles20::BOOL_VEC2 || gl_type
        == gles20::FLOAT_VEC2 {
        2
    } else if gl_type == gles20::INT_VEC3 || gl_type == gles20::BOOL_VEC3 || gl_type
        == gles20::FLOAT_VEC3 {
        3
    } else if gl_type == gles20::INT_VEC4 || gl_type == gles20::BOOL_VEC4 || gl_type
        == gles20::FLOAT_VEC4 {
        4
    } else if gl_type == gles20::FLOAT_MAT2 {
        4
    } else if gl_type == gles20::FLOAT_MAT3 {
        9
    } else {
        16
    }
}

impl UniformSetter {
    /// Whether the entry point takes floats (`glUniform*fv`, `glUniformMatrix*fv`) rather than
    /// integers (`glUniform*iv`).
    pub open spec fn takes_floats(self) -> bool {
        match self {
            UniformSetter::Uniform1iv | UniformSetter::Uniform2iv | UniformSetter::Uniform3iv
            | UniformSetter::Uniform4iv => false,
            _ => true,
        }
    }

    /// Whether the entry point sets a matrix.
    pub open spec fn sets_matrix(self) -> bool {
        match self {
            UniformSetter::UniformMatrix2fv | UniformSetter::UniformMatrix3fv
            | UniformSetter::UniformMatrix4fv => true,
            _ => false,
        }
    }

    /// How many components one value set through the entry point has.
    pub open spec fn component_count(self) -> int {
        match self {
            UniformSetter::Uniform1iv | UniformSetter::Uniform1fv => 1,
            UniformSetter::Uniform2iv | UniformSetter::Uniform2fv => 2,
            UniformSetter::Uniform3iv | UniformSetter::Uniform3fv => 3,
            UniformSetter::Uniform4iv | UniformSetter::Uniform4fv => 4,
            UniformSetter::UniformMatrix2fv => 4,
            UniformSetter::UniformMatrix3fv => 9,
            UniformSetter::UniformMatrix4fv => 16,
        }
    }
}

/// A field's size follows from its components, four bytes each: a scalar, two- or four-vector
/// takes its components, a three-vector is padded to four, and an n-by-n matrix takes n columns
/// of four components.
pub proof fn lemma_field_size_follows_components(gl_type: GLenum)
    requires
        spec_is_uniform_buffer_field_type(gl_type),
    ensures
        !spec_type_is_matrix(gl_type) ==> spec_byte_size_of_type(gl_type) == 4 * (if spec_type_component_count(gl_type) == 3 {
            4
        } else {
            spec_type_component_count(gl_type)
        }),
        spec_type_is_matrix(gl_type) ==> spec_byte_size_of_type(gl_type) % 16 == 0 && (
        spec_byte_size_of_type(gl_type) / 16) * (spec_byte_size_of_type(gl_type) / 16)
            == spec_type_component_count(gl_type),
{
    if gl_type == gles20::FLOAT_MAT2 {
        assert((32int / 16) * (32int / 16) == 4);
    } else if gl_type == gles20::FLOAT_MAT3 {
        assert((48int / 16) * (48int / 16) == 9);
    } else if gl_type == gles20::FLOAT_MAT4 {
        assert((64int / 16) * (64int / 16) == 16);
    }
}

/// A field is set through an entry point that takes floats exactly when its type is a float
/// type, that sets a matrix exactly when its type is a matrix, and whose values have as many
/// components as the type. Booleans and integers go through the integer entry points.
pub proof fn lemma_uniform_setter_matches_type(gl_type: GLenum)
    requires
        spec_is_uniform_buffer_field_type(gl_type),
    ensures
        spec_uniform_setter(gl_type).takes_floats() == spec_type_is_float(gl_type),
        spec_uniform_setter(gl_type).sets_matrix() == spec_type_is_matrix(gl_type),
        spec_uniform_setter(gl_type).component_count() == spec_type_component_count(gl_type),
{
}

/// The kind of value an entry point takes (floats or integers, matrix or not, how many
/// components) tells the entry point: no two entry points agree on all three.
pub proof fn lemma_uniform_setter_determined_by_shape(a: UniformSetter, b: UniformSetter)
    ensures
        a.takes_floats() == b.takes_floats() && a.sets_matrix() == b.sets_matrix()
            && a.component_count() == b.component_count() ==> a == b,
{
}

} // verus!
