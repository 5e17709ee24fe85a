//! The FNV-hashed maps that root signatures keep their lookups in, and what their operations do.
use crate::reflection::UniformIndex;
use crate::root_signature::RafxSamplerIndexGles3;
use crate::types::RafxDescriptorIndex;
use fnv::{FnvHashMap, FnvHasher};
use std::hash::BuildHasherDefault;
use vstd::prelude::*;

verus! {

/// Descriptors by binding number within a set.
pub type BindingMap = FnvHashMap<u32, RafxDescriptorIndex>;

/// Descriptors by name.
pub type NameMap = FnvHashMap<String, RafxDescriptorIndex>;

/// Samplers by their GL name.
pub type SamplerNameMap = FnvHashMap<String, RafxSamplerIndexGles3>;

#[verifier::external_type_specification]
#[verifier::external_body]
pub struct ExFnvHasher(FnvHasher);

#[verifier::external_type_specification]
#[verifier::external_body]
#[verifier::reject_recursive_types(H)]
pub struct ExBuildHasherDefault<H>(BuildHasherDefault<H>);

/// What a map from binding numbers to descriptors holds.
pub uninterp spec fn binding_map_contents(m: BindingMap) -> Map<
    u32,
    RafxDescriptorIndex,
>;

/// What a map from descriptor names to descriptors holds, keyed by the names' characters.
pub uninterp spec fn name_map_contents(m: NameMap) -> Map<
    Seq<char>,
    RafxDescriptorIndex,
>;

/// `FnvHashMap::default()` for bindings: an empty map.
#[verifier::external_body]
pub fn binding_map_new() -> (r: BindingMap)
    ensures
        binding_map_contents(r).dom() == Set::<u32>::empty(),
{
    FnvHashMap::default()
}

/// `HashMap::insert` on a binding map: the key now maps to the value, other keys unchanged.
#[verifier::external_body]
pub fn binding_map_insert(
    m: &mut BindingMap,
    k: u32,
    v: RafxDescriptorIndex,
)
    ensures
        binding_map_contents(*final(m)) == binding_map_contents(*old(m)).insert(k, v),
{
    m.insert(k, v);
}

/// `HashMap::get` on a binding map, copied out.
#[verifier::external_body]
pub fn binding_map_get(m: &BindingMap, k: u32) -> (r: Option<
    RafxDescriptorIndex,
>)
    ensures
        r == (if binding_map_contents(*m).contains_key(k) {
            Some(binding_map_contents(*m)[k])
        } else {
            None
        }),
{
    m.get(&k).copied()
}

/// `FnvHashMap::default()` for names: an empty map.
#[verifier::external_body]
pub fn name_map_new() -> (r: NameMap)
    ensures
        name_map_contents(r).dom() == Set::<Seq<char>>::empty(),
{
    FnvHashMap::default()
}

/// `HashMap::insert` on a name map: strings hash and compare by their characters, so the
/// key's characters now map to the value and other keys are unchanged.
#[verifier::external_body]
pub fn name_map_insert(m: &mut NameMap, k: String, v: RafxDescriptorIndex)
    ensures
        name_map_contents(*final(m)) == name_map_contents(*old(m)).insert(k@, v),
{
    m.insert(k, v);
}

/// `HashMap::get` on a name map by a string slice, copied out.
#[verifier::external_body]
pub fn name_map_get(m: &NameMap, k: &str) -> (r: Option<
    RafxDescriptorIndex,
>)
    ensures
        r == (if name_map_contents(*m).contains_key(k@) {
            Some(name_map_contents(*m)[k@])
        } else {
            None
        }),
{
    m.get(k).copied()
}

/// What a map from sampler names to samplers holds, keyed by the names' characters.
pub uninterp spec fn sampler_name_map_contents(m: SamplerNameMap) -> Map<
    Seq<char>,
    RafxSamplerIndexGles3,
>;

/// `FnvHashMap::default()` for sampler names: an empty map.
#[verifier::external_body]
pub fn sampler_name_map_new() -> (r: SamplerNameMap)
    ensures
        sampler_name_map_contents(r).dom() == Set::<Seq<char>>::empty(),
{
    FnvHashMap::default()
}

/// `HashMap::insert` on a sampler name map: the key's characters now map to the value, other
/// keys are unchanged, and the value that the key had before is returned.
#[verifier::external_body]
pub fn sampler_name_map_insert(
    m: &mut SamplerNameMap,
    k: String,
    v: RafxSamplerIndexGles3,
) -> (r: Option<RafxSamplerIndexGles3>)
    ensures
        sampler_name_map_contents(*final(m)) == sampler_name_map_contents(*old(m)).insert(k@, v),
        r == (if sampler_name_map_contents(*old(m)).contains_key(k@) {
            Some(sampler_name_map_contents(*old(m))[k@])
        } else {
            None
        }),
{
    m.insert(k, v)
}

/// `HashMap::get` on a sampler name map by a string slice, copied out.
#[verifier::external_body]
pub fn sampler_name_map_get(m: &SamplerNameMap, k: &str) -> (r: Option<RafxSamplerIndexGles3>)
    ensures
        r == (if sampler_name_map_contents(*m).contains_key(k@) {
            Some(sampler_name_map_contents(*m)[k@])
        } else {
            None
        }),
{
    m.get(k).copied()
}

/// Uniforms by the bytes of their names.
pub type UniformNameMap = FnvHashMap<Vec<u8>, UniformIndex>;

/// What a map from uniform names to uniforms holds, keyed by the names' bytes.
pub uninterp spec fn uniform_name_map_contents(m: UniformNameMap) -> Map<Seq<u8>, UniformIndex>;

/// `FnvHashMap::default()` for uniform names: an empty map.
#[verifier::external_body]
pub fn uniform_name_map_new() -> (r: UniformNameMap)
    ensures
        uniform_name_map_contents(r).dom() == Set::<Seq<u8>>::empty(),
{
    FnvHashMap::default()
}

/// `HashMap::insert` on a uniform name map: byte vectors hash and compare by their bytes, so
/// the key's bytes now map to the value and other keys are unchanged.
#[verifier::external_body]
pub fn uniform_name_map_insert(m: &mut UniformNameMap, k: Vec<u8>, v: UniformIndex)
    ensures
        uniform_name_map_contents(*final(m)) == uniform_name_map_contents(*old(m)).insert(k@, v),
{
    m.insert(k, v);
}

/// `HashMap::get` on a uniform name map by a byte slice, copied out.
#[verifier::external_body]
pub fn uniform_name_map_get(m: &UniformNameMap, k: &[u8]) -> (r: Option<UniformIndex>)
    ensures
        r == (if uniform_name_map_contents(*m).contains_key(k@) {
            Some(uniform_name_map_contents(*m)[k@])
        } else {
            None
        }),
{
    m.get(k).copied()
}

/// Uniform member offsets by the bytes of the members' names.
pub type MemberOffsetMap = FnvHashMap<Vec<u8>, u32>;

/// What a map from member names to offsets holds, keyed by the names' bytes.
pub uninterp spec fn member_offset_map_contents(m: MemberOffsetMap) -> Map<Seq<u8>, u32>;

/// `FnvHashMap::default()` for member offsets: an empty map.
#[verifier::external_body]
pub fn member_offset_map_new() -> (r: MemberOffsetMap)
    ensures
        member_offset_map_contents(r).dom() == Set::<Seq<u8>>::empty(),
{
    FnvHashMap::default()
}

/// `HashMap::insert` on a member offset map: the key's bytes now map to the value, other keys
/// are unchanged, and the value that the key had before is returned.
#[verifier::external_body]
pub fn member_offset_map_insert(m: &mut MemberOffsetMap, k: Vec<u8>, v: u32) -> (r: Option<u32>)
    ensures
        member_offset_map_contents(*final(m)) == member_offset_map_contents(*old(m)).insert(k@, v),
        r == (if member_offset_map_contents(*old(m)).contains_key(k@) {
            Some(member_offset_map_contents(*old(m))[k@])
        } else {
            None
        }),
{
    m.insert(k, v)
}

/// `HashMap::get` on a member offset map by a byte slice, copied out.
#[verifier::external_body]
pub fn member_offset_map_get(m: &MemberOffsetMap, k: &[u8]) -> (r: Option<u32>)
    ensures
        r == (if member_offset_map_contents(*m).contains_key(k@) {
            Some(member_offset_map_contents(*m)[k@])
        } else {
            None
        }),
{
    m.get(k).copied()
}

} // verus!
