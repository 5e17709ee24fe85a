//! Uniform reflection: GL ES 2.0 has no uniform blocks, so each member of a uniform buffer is a
//! uniform of its own ("block.member"). The programs' active uniforms are grouped by the name
//! before the first dot into uniforms made of fields, and each field is given the byte offset
//! that the shader metadata declares for it.
use crate::fnv_maps::{
    member_offset_map_contents, member_offset_map_get, member_offset_map_insert, member_offset_map_new,
    MemberOffsetMap, uniform_name_map_contents, uniform_name_map_get, uniform_name_map_insert, uniform_name_map_new, UniformNameMap};
use crate::gl_context::ActiveUniformInfo;
use crate::gles20::GLenum;
use crate::types::{RafxError, RafxResult};
use vstd::prelude::*;
use vstd::string::StringSliceAdditionalSpecFns;
use vstd::slice::{slice_subrange, slice_to_vec};

verus! {

#[derive(Copy, Clone, Debug, PartialEq, Eq, Structural)]
pub struct UniformIndex(pub u32);

#[derive(Copy, Clone, Debug, PartialEq, Eq, Structural)]
pub struct FieldIndex(pub u32);

/// A uniform: a name and a run of consecutive fields.
#[derive(Debug)]
pub struct UniformInfo {
    pub name: Vec<u8>,
    pub first_field_index: FieldIndex,
    pub field_count: u32,
}

/// A field of a uniform: one active GL uniform.
#[derive(Debug)]
pub struct UniformFieldInfo {
    /// Number of elements (not bytes).
    pub element_count: u32,
    pub ty: GLenum,
    pub field_index: FieldIndex,
    /// Byte offset of the field within the uniform buffer.
    pub offset: u32,
    pub name: Vec<u8>,
}

/// A member of a uniform buffer as the shader metadata declares it.
#[derive(Clone, Debug)]
pub struct UniformMember {
    pub name: Vec<u8>,
    pub offset: u32,
}

/// The dot that separates a uniform buffer's name from a member's name.
pub open spec fn is_dot(b: u8) -> bool {
    b == 46
}

/// The part of a uniform's name before the first dot (all of it if there is none).
pub open spec fn spec_name_prefix(name: Seq<u8>) -> Seq<u8>
    decreases name.len(),
{
    if name.len() == 0 {
        name
    } else if is_dot(name[0]) {
        Seq::empty()
    } else {
        seq![name[0]] + spec_name_prefix(name.drop_first())
    }
}

/// The offset that the first member with this name declares.
pub open spec fn spec_first_offset(members: Seq<UniformMember>, name: Seq<u8>) -> Option<u32>
    decreases members.len(),
{
    if members.len() == 0 {
        None
    } else {
        match spec_first_offset(members.drop_last(), name) {
            Some(o) => Some(o),
            None => if members.last().name@ == name {
                Some(members.last().offset)
            } else {
                None
            },
        }
    }
}

/// Every member must declare the offset that earlier members of the same name declared; the
/// first one that does not is reported with its offset and the earlier one.
pub open spec fn spec_check_members(members: Seq<UniformMember>) -> RafxResult<()>
    decreases members.len(),
{
    if members.len() == 0 {
        Ok(())
    } else {
        match spec_check_members(members.drop_last()) {
            Err(e) => Err(e),
            Ok(()) => match spec_first_offset(members.drop_last(), members.last().name@) {
                Some(o) => if o != members.last().offset {
                    Err(RafxError::UniformMemberOffsetMismatch(members.last().offset, o))
                } else {
                    Ok(())
                },
                None => Ok(()),
            },
        }
    }
}

/// The uniforms' names: the distinct name prefixes, in the order they first appear.
pub open spec fn spec_group_names(prefixes: Seq<Seq<u8>>) -> Seq<Seq<u8>>
    decreases prefixes.len(),
{
    if prefixes.len() == 0 {
        Seq::empty()
    } else {
        let names = spec_group_names(prefixes.drop_last());
        if names.contains(prefixes.last()) {
            names
        } else {
            names.push(prefixes.last())
        }
    }
}

/// The contents of a list of byte strings.
pub open spec fn byte_strings(v: Seq<Vec<u8>>) -> Seq<Seq<u8>> {
    v.map_values(|b: Vec<u8>| b@)
}

pub open spec fn spec_prefixes(us: Seq<ActiveUniformInfo>) -> Seq<Seq<u8>> {
    us.map_values(|u: ActiveUniformInfo| spec_name_prefix(u.name@))
}

/// The active uniforms whose name prefix is `p`, in order.
pub open spec fn spec_group(us: Seq<ActiveUniformInfo>, p: Seq<u8>) -> Seq<ActiveUniformInfo>
    decreases us.len(),
{
    if us.len() == 0 {
        Seq::empty()
    } else {
        let rest = spec_group(us.drop_last(), p);
        if spec_name_prefix(us.last().name@) == p {
            rest.push(us.last())
        } else {
            rest
        }
    }
}

/// The fields of all uniforms: each uniform's group, one after the other.
pub open spec fn spec_grouped(us: Seq<ActiveUniformInfo>, names: Seq<Seq<u8>>) -> Seq<
    ActiveUniformInfo,
>
    decreases names.len(),
{
    if names.len() == 0 {
        Seq::empty()
    } else {
        spec_grouped(us, names.drop_last()) + spec_group(us, names.last())
    }
}

/// The field at index `k` made from the active uniform `u`.
pub open spec fn field_from(
    f: UniformFieldInfo,
    u: ActiveUniformInfo,
    k: int,
    members: Seq<UniformMember>,
) -> bool {
    &&& f.name@ == u.name@
    &&& f.element_count == u.size
    &&& f.ty == u.ty
    &&& f.field_index.0 == k
    &&& spec_first_offset(members, u.name@) == Some(f.offset)
}

/// Every field has an offset in the metadata.
pub open spec fn all_offsets_found(us: Seq<ActiveUniformInfo>, members: Seq<UniformMember>) -> bool {
    forall|k: int| 0 <= k < us.len() ==> spec_first_offset(members, #[trigger] us[k].name@) is Some
}

pub struct UniformReflectionData {
    uniforms: Vec<UniformInfo>,
    fields: Vec<UniformFieldInfo>,
    /// Each uniform's index, by its name.
    uniform_name_lookup: UniformNameMap,
}

/// The lookup from each uniform's name to its index. The names are distinct.
fn name_lookup(uniforms: &Vec<UniformInfo>) -> (r: UniformNameMap)
    requires
        uniforms@.len() <= u32::MAX,
        forall|i: int, j: int|
            0 <= i < j < uniforms@.len() ==> uniforms@[i].name@ != uniforms@[j].name@,
    ensures
        forall|g: int|
            0 <= g < uniforms@.len() ==> {
                &&& uniform_name_map_contents(r).contains_key(#[trigger] uniforms@[g].name@)
                &&& uniform_name_map_contents(r)[uniforms@[g].name@] == UniformIndex(g as u32)
            },
        forall|n: Seq<u8>|
            #[trigger] uniform_name_map_contents(r).contains_key(n) ==> exists|g: int|
                0 <= g < uniforms@.len() && uniforms@[g].name@ == n,
{
    let mut lookup = uniform_name_map_new();
    let mut i: usize = 0;
    while i < uniforms.len()
        invariant
            i <= uniforms@.len(),
            uniforms@.len() <= u32::MAX,
            forall|a: int, b: int|
                0 <= a < b < uniforms@.len() ==> uniforms@[a].name@ != uniforms@[b].name@,
            forall|g: int|
                0 <= g < i ==> {
                    &&& uniform_name_map_contents(lookup).contains_key(#[trigger] uniforms@[g].name@)
                    &&& uniform_name_map_contents(lookup)[uniforms@[g].name@] == UniformIndex(g as u32)
                },
            forall|n: Seq<u8>|
                #[trigger] uniform_name_map_contents(lookup).contains_key(n) ==> exists|g: int|
                    0 <= g < i && uniforms@[g].name@ == n,
        decreases uniforms@.len() - i,
    {
        let ghost before = uniform_name_map_contents(lookup);
        let name = slice_to_vec(uniforms[i].name.as_slice());
        uniform_name_map_insert(&mut lookup, name, UniformIndex(i as u32));
        proof {
            let after = uniform_name_map_contents(lookup);
            assert forall|g: int| 0 <= g < i + 1 implies {
                &&& after.contains_key(#[trigger] uniforms@[g].name@)
                &&& after[uniforms@[g].name@] == UniformIndex(g as u32)
            } by {
                if g < i {
                    assert(uniforms@[g].name@ != uniforms@[i as int].name@);
                }
            }
            assert forall|n: Seq<u8>| #[trigger] after.contains_key(n) implies exists|g: int|
                0 <= g < i + 1 && uniforms@[g].name@ == n by {
                if n != uniforms@[i as int].name@ {
                    assert(before.contains_key(n));
                }
            }
        }
        i = i + 1;
    }
    lookup
}

impl UniformReflectionData {
    pub closed spec fn spec_uniforms(&self) -> Seq<UniformInfo> {
        self.uniforms@
    }

    pub closed spec fn spec_fields(&self) -> Seq<UniformFieldInfo> {
        self.fields@
    }

    /// Uniform names are distinct and each uniform's fields lie within the field list.
    /// Which uniform each name looks up.
    pub closed spec fn spec_name_lookup(&self) -> Map<Seq<u8>, UniformIndex> {
        uniform_name_map_contents(self.uniform_name_lookup)
    }

    pub open spec fn wf(&self) -> bool {
        &&& forall|g: int|
            0 <= g < self.spec_uniforms().len() ==> {
                &&& self.spec_name_lookup().contains_key(#[trigger] self.spec_uniforms()[g].name@)
                &&& self.spec_name_lookup()[self.spec_uniforms()[g].name@] == UniformIndex(g as u32)
            }
        &&& forall|n: Seq<u8>|
            #[trigger] self.spec_name_lookup().contains_key(n) ==> exists|g: int|
                0 <= g < self.spec_uniforms().len() && self.spec_uniforms()[g].name@ == n
        &&& forall|i: int, j: int|
            0 <= i < j < self.spec_uniforms().len() ==> self.spec_uniforms()[i].name@
                != self.spec_uniforms()[j].name@
        &&& forall|g: int|
            0 <= g < self.spec_uniforms().len() ==> self.spec_uniforms()[g].first_field_index.0
                + self.spec_uniforms()[g].field_count <= self.spec_fields().len()
        &&& self.spec_fields().len() <= u32::MAX
        &&& self.spec_uniforms().len() <= u32::MAX
    }

    /// The data made from the members and active uniforms: uniforms in the order of
    /// `spec_group_names`, fields in the order of `spec_grouped`.
    pub open spec fn built_from(
        &self,
        members: Seq<UniformMember>,
        us: Seq<ActiveUniformInfo>,
    ) -> bool {
        let names = spec_group_names(spec_prefixes(us));
        let grouped = spec_grouped(us, names);
        &&& self.spec_uniforms().len() == names.len()
        &&& forall|g: int|
            0 <= g < names.len() ==> {
                &&& (#[trigger] self.spec_uniforms()[g]).name@ == names[g]
                &&& self.spec_uniforms()[g].first_field_index.0 == spec_grouped(
                    us,
                    names.take(g),
                ).len()
                &&& self.spec_uniforms()[g].field_count == spec_group(us, names[g]).len()
            }
        &&& self.spec_fields().len() == grouped.len()
        &&& forall|k: int|
            0 <= k < grouped.len() ==> field_from(
                #[trigger] self.spec_fields()[k],
                grouped[k],
                k,
                members,
            )
    }
}

/// `a == b` on byte strings.
pub fn bytes_eq(a: &[u8], b: &[u8]) -> (r: bool)
    ensures
        r == (a@ == b@),
{
    if a.len() != b.len() {
        return false;
    }
    let mut i: usize = 0;
    while i < a.len()
        invariant
            a.len() == b.len(),
            i <= a.len(),
            forall|j: int| 0 <= j < i ==> a@[j] == b@[j],
        decreases a.len() - i,
    {
        if a[i] != b[i] {
            return false;
        }
        i = i + 1;
    }
    assert(a@ =~= b@);
    true
}

proof fn lemma_name_prefix_at(name: Seq<u8>, i: int)
    requires
        0 <= i <= name.len(),
        forall|j: int| 0 <= j < i ==> !is_dot(name[j]),
        i == name.len() || is_dot(name[i]),
    ensures
        spec_name_prefix(name) == name.take(i),
    decreases name.len(),
{
    if name.len() == 0 {
        assert(name.take(i) =~= name);
    } else if i == 0 {
        assert(name.take(0) =~= Seq::<u8>::empty());
    } else {
        lemma_name_prefix_at(name.drop_first(), i - 1);
        assert(name.take(i) =~= seq![name[0]] + name.drop_first().take(i - 1));
    }
}

/// The bytes of a uniform name before its first dot.
pub fn name_prefix(name: &Vec<u8>) -> (r: Vec<u8>)
    ensures
        r@ == spec_name_prefix(name@),
{
    let mut out: Vec<u8> = Vec::new();
    let mut i: usize = 0;
    while i < name.len() && name[i] != 46
        invariant
            i <= name.len(),
            out@ == name@.take(i as int),
            forall|j: int| 0 <= j < i ==> !is_dot(name@[j]),
        decreases name.len() - i,
    {
        out.push(name[i]);
        i = i + 1;
        assert(out@ =~= name@.take(i as int));
    }
    proof {
        lemma_name_prefix_at(name@, i as int);
    }
    out
}

/// The map holds, for each name, the offset that the first member of that name declares.
pub open spec fn offsets_of(m: MemberOffsetMap, members: Seq<UniformMember>) -> bool {
    forall|n: Seq<u8>|
        #[trigger] spec_first_offset(members, n) == (if member_offset_map_contents(m).contains_key(
            n,
        ) {
            Some(member_offset_map_contents(m)[n])
        } else {
            None
        })
}

/// Merges the members' offsets by name, checking that no two members of one name declare
/// different offsets.
fn member_offsets(members: &Vec<UniformMember>) -> (r: RafxResult<MemberOffsetMap>)
    ensures
        match r {
            Ok(m) => spec_check_members(members@) == Ok::<(), RafxError>(()) && offsets_of(
                m,
                members@,
            ),
            Err(e) => spec_check_members(members@) == Err::<(), RafxError>(e),
        },
{
    let mut offsets = member_offset_map_new();
    let mut j: usize = 0;
    assert(offsets_of(offsets, members@.take(0))) by {
        assert forall|n: Seq<u8>| #[trigger] spec_first_offset(members@.take(0), n) == (
        if member_offset_map_contents(offsets).contains_key(n) {
            Some(member_offset_map_contents(offsets)[n])
        } else {
            None
        }) by {
            assert(!member_offset_map_contents(offsets).dom().contains(n));
        }
    }
    while j < members.len()
        invariant
            j <= members.len(),
            spec_check_members(members@.take(j as int)) == Ok::<(), RafxError>(()),
            offsets_of(offsets, members@.take(j as int)),
        decreases members.len() - j,
    {
        let ghost before = member_offset_map_contents(offsets);
        let ghost prefix = members@.take(j as int);
        assert(members@.take(j + 1).drop_last() =~= prefix);
        assert(members@.take(j + 1).last() == members@[j as int]);
        let name = slice_to_vec(members[j].name.as_slice());
        let old = member_offset_map_insert(&mut offsets, name, members[j].offset);
        assert(spec_first_offset(prefix, members@[j as int].name@) == old);
        if let Some(o) = old {
            if o != members[j].offset {
                proof {
                    lemma_check_members_prefix_err(members@, j as int);
                }
                return Err(RafxError::UniformMemberOffsetMismatch(members[j].offset, o));
            }
        }
        proof {
            let after = member_offset_map_contents(offsets);
            let next = members@.take(j + 1);
            assert forall|n: Seq<u8>| #[trigger] spec_first_offset(next, n) == (if after.contains_key(
                n,
            ) {
                Some(after[n])
            } else {
                None
            }) by {
                assert(spec_first_offset(prefix, n) == (if before.contains_key(n) {
                    Some(before[n])
                } else {
                    None
                }));
            }
        }
        j = j + 1;
    }
    assert(members@.take(members.len() as int) =~= members@);
    Ok(offsets)
}

/// An error in a prefix of the members is the error of all of them.
proof fn lemma_check_members_prefix_err(members: Seq<UniformMember>, j: int)
    requires
        0 <= j < members.len(),
        spec_check_members(members.take(j + 1)) is Err,
    ensures
        spec_check_members(members) == spec_check_members(members.take(j + 1)),
    decreases members.len(),
{
    if j + 1 == members.len() {
        assert(members.take(j + 1) =~= members);
    } else {
        assert(members.drop_last().take(j + 1) =~= members.take(j + 1));
        lemma_check_members_prefix_err(members.drop_last(), j);
    }
}

fn contains_name(names: &Vec<Vec<u8>>, name: &Vec<u8>) -> (r: bool)
    ensures
        r == byte_strings(names@).contains(name@),
{
    let mut i: usize = 0;
    while i < names.len()
        invariant
            i <= names.len(),
            forall|j: int| 0 <= j < i ==> byte_strings(names@)[j] != name@,
        decreases names.len() - i,
    {
        assert(byte_strings(names@)[i as int] == names@[i as int]@);
        if bytes_eq(names[i].as_slice(), name.as_slice()) {
            return true;
        }
        i = i + 1;
    }
    false
}

proof fn lemma_grouped_push(us: Seq<ActiveUniformInfo>, names: Seq<Seq<u8>>, g: int)
    requires
        0 <= g < names.len(),
    ensures
        spec_grouped(us, names.take(g + 1)) == spec_grouped(us, names.take(g)) + spec_group(
            us,
            names[g],
        ),
{
    assert(names.take(g + 1).drop_last() =~= names.take(g));
}

proof fn lemma_group_names_distinct(prefixes: Seq<Seq<u8>>)
    ensures
        forall|i: int, j: int|
            0 <= i < j < spec_group_names(prefixes).len() ==> spec_group_names(prefixes)[i]
                != spec_group_names(prefixes)[j],
    decreases prefixes.len(),
{
    if prefixes.len() > 0 {
        lemma_group_names_distinct(prefixes.drop_last());
        let names = spec_group_names(prefixes.drop_last());
        if !names.contains(prefixes.last()) {
            assert forall|i: int, j: int|
                0 <= i < j < names.push(prefixes.last()).len() implies names.push(
                prefixes.last(),
            )[i] != names.push(prefixes.last())[j] by {
                if j == names.len() {
                    assert(names.push(prefixes.last())[i] == names[i]);
                }
            }
        }
    }
}

proof fn lemma_grouped_len_mono(us: Seq<ActiveUniformInfo>, names: Seq<Seq<u8>>, a: int, b: int)
    requires
        0 <= a <= b <= names.len(),
    ensures
        spec_grouped(us, names.take(a)).len() <= spec_grouped(us, names.take(b)).len(),
    decreases b - a,
{
    if a < b {
        lemma_grouped_len_mono(us, names, a, b - 1);
        lemma_grouped_push(us, names, b - 1);
    }
}

/// The name prefix of every active uniform, and the distinct prefixes in order of appearance.
fn collect_prefixes(active_uniforms: &Vec<ActiveUniformInfo>) -> (r: (Vec<Vec<u8>>, Vec<Vec<u8>>))
    ensures
        r.0.len() == active_uniforms.len(),
        byte_strings(r.0@) == spec_prefixes(active_uniforms@),
        byte_strings(r.1@) == spec_group_names(spec_prefixes(active_uniforms@)),
{
    let ghost us = active_uniforms@;
    let mut prefixes: Vec<Vec<u8>> = Vec::new();
    let mut names: Vec<Vec<u8>> = Vec::new();
    let mut i: usize = 0;
    while i < active_uniforms.len()
        invariant
            i <= active_uniforms.len(),
            us == active_uniforms@,
            prefixes.len() == i,
            byte_strings(prefixes@) == spec_prefixes(us.take(i as int)),
            byte_strings(names@) == spec_group_names(spec_prefixes(us.take(i as int))),
        decreases active_uniforms.len() - i,
    {
        let p = name_prefix(&active_uniforms[i].name);
        let ghost old_prefixes = prefixes@;
        let ghost old_names = names@;
        assert(spec_prefixes(us.take(i + 1)).drop_last() =~= spec_prefixes(us.take(i as int)));
        assert(spec_prefixes(us.take(i + 1)).last() == p@);
        if !contains_name(&names, &p) {
            names.push(slice_to_vec(p.as_slice()));
            assert(byte_strings(names@) =~= byte_strings(old_names).push(p@));
        }
        prefixes.push(p);
        assert forall|k: int| 0 <= k < i + 1 implies #[trigger] byte_strings(prefixes@)[k]
            == spec_prefixes(us.take(i + 1))[k] by {
            if k < i {
                assert(prefixes@[k] == old_prefixes[k]);
                assert(byte_strings(old_prefixes)[k] == spec_prefixes(us.take(i as int))[k]);
            }
        }
        assert(byte_strings(prefixes@) =~= spec_prefixes(us.take(i + 1)));
        i = i + 1;
    }
    assert(us.take(active_uniforms.len() as int) =~= us);
    (prefixes, names)
}

/// Appends the fields of the uniform named `name`: every active uniform with that prefix, in
/// order, with the offset its full name has in the metadata.
fn collect_group(
    members: &Vec<UniformMember>,
    offsets: &MemberOffsetMap,
    active_uniforms: &Vec<ActiveUniformInfo>,
    prefixes: &Vec<Vec<u8>>,
    name: &Vec<u8>,
    fields: &mut Vec<UniformFieldInfo>,
) -> (r: RafxResult<()>)
    requires
        offsets_of(*offsets, members@),
        prefixes.len() == active_uniforms.len(),
        byte_strings(prefixes@) == spec_prefixes(active_uniforms@),
        old(fields).len() + spec_group(active_uniforms@, name@).len() <= active_uniforms.len(),
        active_uniforms.len() < u32::MAX,
    ensures
        match r {
            Ok(()) => {
                &&& final(fields)@.len() == old(fields)@.len() + spec_group(
                    active_uniforms@,
                    name@,
                ).len()
                &&& forall|k: int|
                    0 <= k < old(fields)@.len() ==> final(fields)@[k] == old(fields)@[k]
                &&& forall|m: int|
                    0 <= m < spec_group(active_uniforms@, name@).len() ==> field_from(
                        #[trigger] final(fields)@[old(fields)@.len() + m],
                        spec_group(active_uniforms@, name@)[m],
                        old(fields)@.len() + m,
                        members@,
                    )
            },
            Err(e) => e == RafxError::UniformMemberNotFound && !all_offsets_found(
                active_uniforms@,
                members@,
            ),
        },
{
    let ghost us = active_uniforms@;
    let ghost base = old(fields)@;
    let mut j: usize = 0;
    while j < active_uniforms.len()
        invariant
            j <= active_uniforms.len(),
            offsets_of(*offsets, members@),
            us == active_uniforms@,
            prefixes.len() == us.len(),
            byte_strings(prefixes@) == spec_prefixes(us),
            base.len() + spec_group(us, name@).len() <= us.len(),
            us.len() < u32::MAX,
            fields@.len() == base.len() + spec_group(us.take(j as int), name@).len(),
            forall|k: int| 0 <= k < base.len() ==> fields@[k] == base[k],
            forall|m: int|
                0 <= m < spec_group(us.take(j as int), name@).len() ==> field_from(
                    #[trigger] fields@[base.len() + m],
                    spec_group(us.take(j as int), name@)[m],
                    base.len() + m,
                    members@,
                ),
        decreases active_uniforms.len() - j,
    {
        assert(us.take(j + 1).drop_last() =~= us.take(j as int));
        assert(us.take(j + 1).last() == us[j as int]);
        proof {
            lemma_group_len_mono(us, name@, j as int + 1);
        }
        assert(byte_strings(prefixes@)[j as int] == prefixes@[j as int]@);
        assert(spec_prefixes(us)[j as int] == spec_name_prefix(us[j as int].name@));
        if bytes_eq(prefixes[j].as_slice(), name.as_slice()) {
            let found = member_offset_map_get(offsets, active_uniforms[j].name.as_slice());
            assert(found == spec_first_offset(members@, active_uniforms@[j as int].name@));
            let offset = match found {
                Some(o) => o,
                None => {
                    return Err(RafxError::UniformMemberNotFound);
                },
            };
            let ghost old_fields = fields@;
            let field_index = fields.len() as u32;
            fields.push(
                UniformFieldInfo {
                    element_count: active_uniforms[j].size,
                    ty: active_uniforms[j].ty,
                    field_index: FieldIndex(field_index),
                    offset,
                    name: slice_to_vec(active_uniforms[j].name.as_slice()),
                },
            );
            assert forall|m: int|
                0 <= m < spec_group(us.take(j + 1), name@).len() implies field_from(
                #[trigger] fields@[base.len() + m],
                spec_group(us.take(j + 1), name@)[m],
                base.len() + m,
                members@,
            ) by {
                if m < spec_group(us.take(j as int), name@).len() {
                    assert(fields@[base.len() + m] == old_fields[base.len() + m]);
                }
            }
        }
        j = j + 1;
    }
    assert(us.take(active_uniforms.len() as int) =~= us);
    Ok(())
}

impl UniformReflectionData {
    /// Builds the reflection data. `uniform_members` lists the uniform buffer members of every
    /// shader stage; `active_uniforms` lists what each program reports, program after program.
    /// A field that two programs report is not compared between them: each report is kept as a
    /// field of its uniform, so neither a size nor a type mismatch is ever refused.
    pub fn new(
        uniform_members: &Vec<UniformMember>,
        active_uniforms: &Vec<ActiveUniformInfo>,
    ) -> (r: RafxResult<UniformReflectionData>)
        requires
            active_uniforms.len() < u32::MAX,
        ensures
            match r {
                Ok(data) => {
                    &&& spec_check_members(uniform_members@) == Ok::<(), RafxError>(())
                    &&& all_offsets_found(active_uniforms@, uniform_members@)
                    &&& data.wf()
                    &&& data.built_from(uniform_members@, active_uniforms@)
                },
                Err(e) => match spec_check_members(uniform_members@) {
                    Err(e2) => e == e2,
                    Ok(()) => e == RafxError::UniformMemberNotFound && !all_offsets_found(
                        active_uniforms@,
                        uniform_members@,
                    ),
                },
            },
    {
        let offsets = member_offsets(uniform_members)?;
        let ghost us = active_uniforms@;
        let ghost members = uniform_members@;
        let (prefixes, names) = collect_prefixes(active_uniforms);
        let ghost gnames = byte_strings(names@);
        proof {
            lemma_group_names_distinct(spec_prefixes(us));
            lemma_group_count_bound(us);
        }

        let mut uniforms: Vec<UniformInfo> = Vec::new();
        let mut fields: Vec<UniformFieldInfo> = Vec::new();
        let mut g: usize = 0;
        while g < names.len()
            invariant
                g <= names.len(),
                us == active_uniforms@,
                members == uniform_members@,
                offsets_of(offsets, members),
                us.len() < u32::MAX,
                spec_check_members(members) == Ok::<(), RafxError>(()),
                prefixes.len() == us.len(),
                byte_strings(prefixes@) == spec_prefixes(us),
                gnames == byte_strings(names@),
                gnames == spec_group_names(spec_prefixes(us)),
                spec_grouped(us, gnames).len() <= us.len(),
                uniforms.len() == g,
                fields.len() == spec_grouped(us, gnames.take(g as int)).len(),
                forall|h: int|
                    0 <= h < g ==> {
                        &&& (#[trigger] uniforms@[h]).name@ == gnames[h]
                        &&& uniforms@[h].first_field_index.0 == spec_grouped(
                            us,
                            gnames.take(h),
                        ).len()
                        &&& uniforms@[h].field_count == spec_group(us, gnames[h]).len()
                    },
                forall|k: int|
                    0 <= k < fields.len() ==> field_from(
                        #[trigger] fields@[k],
                        spec_grouped(us, gnames.take(g as int))[k],
                        k,
                        members,
                    ),
            decreases names.len() - g,
        {
            proof {
                lemma_grouped_push(us, gnames, g as int);
                lemma_grouped_len_mono(us, gnames, g + 1, gnames.len() as int);
                assert(gnames.take(gnames.len() as int) =~= gnames);
            }
            let ghost before = fields@;
            assert(gnames[g as int] == names@[g as int]@);
            let first_field_index = fields.len();
            collect_group(uniform_members, &offsets, active_uniforms, &prefixes, &names[g], &mut fields)?;
            let field_count = (fields.len() - first_field_index) as u32;
            let uniform_name = slice_to_vec(names[g].as_slice());
            uniforms.push(
                UniformInfo {
                    name: uniform_name,
                    first_field_index: FieldIndex(first_field_index as u32),
                    field_count,
                },
            );
            assert forall|k: int| 0 <= k < fields.len() implies field_from(
                #[trigger] fields@[k],
                spec_grouped(us, gnames.take(g + 1))[k],
                k,
                members,
            ) by {
                if k < before.len() {
                    assert(fields@[k] == before[k]);
                } else {
                    assert(fields@[before.len() + (k - before.len())] == fields@[k]);
                }
            }
            g = g + 1;
        }
        assert(gnames.take(names.len() as int) =~= gnames);
        assert(forall|i: int, j: int|
            0 <= i < j < uniforms@.len() ==> uniforms@[i].name@ != uniforms@[j].name@);
        let uniform_name_lookup = name_lookup(&uniforms);
        let data = UniformReflectionData { uniforms, fields, uniform_name_lookup };
        proof {
            assert forall|n: Seq<u8>| #[trigger] data.spec_name_lookup().contains_key(n) implies exists|g: int|
                0 <= g < data.spec_uniforms().len() && data.spec_uniforms()[g].name@ == n by {
                let g = choose|g: int| 0 <= g < data.uniforms@.len() && data.uniforms@[g].name@ == n;
                assert(data.spec_uniforms()[g].name@ == n);
            }
            assert forall|h: int| 0 <= h < uniforms.len() implies uniforms@[h].first_field_index.0
                + uniforms@[h].field_count <= fields.len() by {
                lemma_grouped_push(us, gnames, h);
                lemma_grouped_len_mono(us, gnames, h + 1, gnames.len() as int);
            }
            assert forall|k: int| 0 <= k < us.len() implies spec_first_offset(
                members,
                #[trigger] us[k].name@,
            ) is Some by {
                lemma_every_uniform_grouped(us, k);
                let kk = choose|kk: int|
                    0 <= kk < spec_grouped(us, gnames).len() && spec_grouped(us, gnames)[kk]
                        == us[k];
                assert(field_from(fields@[kk], spec_grouped(us, gnames)[kk], kk, members));
            }
        }
        Ok(data)
    }

    /// The uniform with the given name, looked up by its bytes.
    pub fn uniform_index(&self, name: &str) -> (r: Option<UniformIndex>)
        requires
            self.wf(),
        ensures
            match r {
                Some(idx) => idx.0 < self.spec_uniforms().len() && self.spec_uniforms()[idx.0 as int].name@
                    == name.spec_bytes(),
                None => forall|g: int|
                    0 <= g < self.spec_uniforms().len() ==> self.spec_uniforms()[g].name@
                        != name.spec_bytes(),
            },
    {
        let bytes = name.as_bytes();
        let r = uniform_name_map_get(&self.uniform_name_lookup, bytes);
        proof {
            if r is None {
                assert forall|g: int| 0 <= g < self.spec_uniforms().len() implies self.spec_uniforms()[g].name@
                    != name.spec_bytes() by {
                    assert(self.spec_name_lookup().contains_key(self.spec_uniforms()[g].name@));
                }
            } else {
                let n = bytes@;
                assert(self.spec_name_lookup().contains_key(n));
                let g = choose|g: int| 0 <= g < self.spec_uniforms().len() && self.spec_uniforms()[g].name@ == n;
                assert(self.spec_name_lookup()[self.spec_uniforms()[g].name@] == UniformIndex(g as u32));
            }
        }
        r
    }

    /// The positions in `fields()` of the uniform's fields.
    pub fn uniform_field_range(&self, uniform_index: UniformIndex) -> (r: (usize, usize))
        requires
            self.wf(),
            uniform_index.0 < self.spec_uniforms().len(),
        ensures
            r.0 == self.spec_uniforms()[uniform_index.0 as int].first_field_index.0,
            r.1 == r.0 + self.spec_uniforms()[uniform_index.0 as int].field_count,
            r.1 <= self.spec_fields().len(),
    {
        let uniform = &self.uniforms[uniform_index.0 as usize];
        let first = uniform.first_field_index.0 as usize;
        let last = uniform.first_field_index.0 as usize + uniform.field_count as usize;
        (first, last)
    }

    /// The uniform's fields.
    pub fn uniform_fields(&self, uniform_index: UniformIndex) -> (r: &[UniformFieldInfo])
        requires
            self.wf(),
            uniform_index.0 < self.spec_uniforms().len(),
        ensures
            r@ == self.spec_fields().subrange(
                self.spec_uniforms()[uniform_index.0 as int].first_field_index.0 as int,
                self.spec_uniforms()[uniform_index.0 as int].first_field_index.0
                    + self.spec_uniforms()[uniform_index.0 as int].field_count,
            ),
    {
        let (first, last) = self.uniform_field_range(uniform_index);
        slice_subrange(self.fields.as_slice(), first, last)
    }

    /// The number of uniforms.
    pub fn uniforms_len(&self) -> (r: usize)
        ensures
            r == self.spec_uniforms().len(),
    {
        self.uniforms.len()
    }

    pub fn fields(&self) -> (r: &[UniformFieldInfo])
        ensures
            r@ == self.spec_fields(),
    {
        self.fields.as_slice()
    }
}

proof fn lemma_group_len_mono(us: Seq<ActiveUniformInfo>, p: Seq<u8>, j: int)
    requires
        0 <= j <= us.len(),
    ensures
        spec_group(us.take(j), p).len() <= spec_group(us, p).len(),
    decreases us.len() - j,
{
    if j < us.len() {
        lemma_group_len_mono(us, p, j + 1);
        assert(us.take(j + 1).drop_last() =~= us.take(j));
    } else {
        assert(us.take(j) =~= us);
    }
}

/// Each active uniform is among the grouped fields.
proof fn lemma_every_uniform_grouped(us: Seq<ActiveUniformInfo>, k: int)
    requires
        0 <= k < us.len(),
    ensures
        exists|kk: int|
            0 <= kk < spec_grouped(us, spec_group_names(spec_prefixes(us))).len() && spec_grouped(
                us,
                spec_group_names(spec_prefixes(us)),
            )[kk] == us[k],
{
    let names = spec_group_names(spec_prefixes(us));
    lemma_prefix_in_names(spec_prefixes(us), k);
    let g = choose|g: int| 0 <= g < names.len() && names[g] == spec_prefixes(us)[k];
    lemma_in_group(us, spec_name_prefix(us[k].name@), k);
    let m = choose|m: int| 0 <= m < spec_group(us, names[g]).len() && spec_group(us, names[g])[m] == us[k];
    lemma_group_in_grouped(us, names, g, m);
}

proof fn lemma_prefix_in_names(prefixes: Seq<Seq<u8>>, k: int)
    requires
        0 <= k < prefixes.len(),
    ensures
        spec_group_names(prefixes).contains(prefixes[k]),
    decreases prefixes.len(),
{
    if k < prefixes.len() - 1 {
        lemma_prefix_in_names(prefixes.drop_last(), k);
        let names = spec_group_names(prefixes.drop_last());
        let i = choose|i: int| 0 <= i < names.len() && names[i] == prefixes[k];
        if !names.contains(prefixes.last()) {
            assert(names.push(prefixes.last())[i] == prefixes[k]);
        }
    } else {
        let names = spec_group_names(prefixes.drop_last());
        if !names.contains(prefixes.last()) {
            assert(names.push(prefixes.last())[names.len() as int] == prefixes[k]);
        }
    }
}

proof fn lemma_in_group(us: Seq<ActiveUniformInfo>, p: Seq<u8>, k: int)
    requires
        0 <= k < us.len(),
        spec_name_prefix(us[k].name@) == p,
    ensures
        exists|m: int| 0 <= m < spec_group(us, p).len() && spec_group(us, p)[m] == us[k],
    decreases us.len(),
{
    if k == us.len() - 1 {
        let rest = spec_group(us.drop_last(), p);
        assert(spec_group(us, p) == rest.push(us.last()));
        assert(spec_group(us, p)[rest.len() as int] == us[k]);
    } else {
        assert(us.drop_last()[k] == us[k]);
        lemma_in_group(us.drop_last(), p, k);
        let m = choose|m: int|
            0 <= m < spec_group(us.drop_last(), p).len() && spec_group(us.drop_last(), p)[m]
                == us.drop_last()[k];
        let rest = spec_group(us.drop_last(), p);
        if spec_name_prefix(us.last().name@) == p {
            assert(spec_group(us, p) == rest.push(us.last()));
            assert(rest.push(us.last())[m] == rest[m]);
            assert(spec_group(us, p)[m] == us[k]);
        } else {
            assert(spec_group(us, p) == rest);
            assert(spec_group(us, p)[m] == us[k]);
        }
    }
}

proof fn lemma_group_in_grouped(us: Seq<ActiveUniformInfo>, names: Seq<Seq<u8>>, g: int, m: int)
    requires
        0 <= g < names.len(),
        0 <= m < spec_group(us, names[g]).len(),
    ensures
        exists|kk: int|
            0 <= kk < spec_grouped(us, names).len() && spec_grouped(us, names)[kk] == spec_group(
                us,
                names[g],
            )[m],
    decreases names.len(),
{
    let before = spec_grouped(us, names.drop_last());
    if g == names.len() - 1 {
        assert(spec_grouped(us, names)[before.len() + m] == spec_group(us, names[g])[m]);
    } else {
        lemma_group_in_grouped(us, names.drop_last(), g, m);
        let kk = choose|kk: int|
            0 <= kk < before.len() && before[kk] == spec_group(us, names.drop_last()[g])[m];
        assert(spec_grouped(us, names)[kk] == before[kk]);
    }
}

pub open spec fn names_distinct(names: Seq<Seq<u8>>) -> bool {
    forall|i: int, j: int| 0 <= i < j < names.len() ==> names[i] != names[j]
}

proof fn lemma_grouped_of_empty(names: Seq<Seq<u8>>)
    ensures
        spec_grouped(Seq::<ActiveUniformInfo>::empty(), names).len() == 0,
    decreases names.len(),
{
    if names.len() > 0 {
        lemma_grouped_of_empty(names.drop_last());
    }
}

proof fn lemma_grouped_len_push(us: Seq<ActiveUniformInfo>, u: ActiveUniformInfo, names: Seq<Seq<u8>>)
    requires
        names_distinct(names),
    ensures
        spec_grouped(us.push(u), names).len() == spec_grouped(us, names).len() + (if names.contains(
            spec_name_prefix(u.name@),
        ) {
            1int
        } else {
            0int
        }),
    decreases names.len(),
{
    if names.len() > 0 {
        let init = names.drop_last();
        assert(names_distinct(init));
        lemma_grouped_len_push(us, u, init);
        assert(us.push(u).drop_last() =~= us);
        let p = spec_name_prefix(u.name@);
        if names.last() == p {
            if init.contains(p) {
                let i = choose|i: int| 0 <= i < init.len() && init[i] == p;
                assert(names[i] == names[names.len() - 1]);
            }
            assert(names.contains(p));
        } else {
            if init.contains(p) {
                let i = choose|i: int| 0 <= i < init.len() && init[i] == p;
                assert(names[i] == p);
            }
            if names.contains(p) {
                let i = choose|i: int| 0 <= i < names.len() && names[i] == p;
                assert(init[i] == p);
            }
        }
    }
}

proof fn lemma_grouped_len_bound(us: Seq<ActiveUniformInfo>, names: Seq<Seq<u8>>)
    requires
        names_distinct(names),
    ensures
        spec_grouped(us, names).len() <= us.len(),
    decreases us.len(),
{
    if us.len() == 0 {
        assert(us =~= Seq::<ActiveUniformInfo>::empty());
        lemma_grouped_of_empty(names);
    } else {
        lemma_grouped_len_bound(us.drop_last(), names);
        lemma_grouped_len_push(us.drop_last(), us.last(), names);
        assert(us.drop_last().push(us.last()) =~= us);
    }
}

proof fn lemma_group_names_len(prefixes: Seq<Seq<u8>>)
    ensures
        spec_group_names(prefixes).len() <= prefixes.len(),
    decreases prefixes.len(),
{
    if prefixes.len() > 0 {
        lemma_group_names_len(prefixes.drop_last());
    }
}

/// The grouped fields are no more than the active uniforms, and so are the uniforms.
proof fn lemma_group_count_bound(us: Seq<ActiveUniformInfo>)
    ensures
        spec_grouped(us, spec_group_names(spec_prefixes(us))).len() <= us.len(),
        spec_group_names(spec_prefixes(us)).len() <= us.len(),
{
    lemma_group_names_distinct(spec_prefixes(us));
    lemma_grouped_len_bound(us, spec_group_names(spec_prefixes(us)));
    lemma_group_names_len(spec_prefixes(us));
}

/// Every member of a group has the group's name prefix.
proof fn lemma_group_members_have_prefix(us: Seq<ActiveUniformInfo>, p: Seq<u8>, m: int)
    requires
        0 <= m < spec_group(us, p).len(),
    ensures
        spec_name_prefix(spec_group(us, p)[m].name@) == p,
    decreases us.len(),
{
    let rest = spec_group(us.drop_last(), p);
    if m < rest.len() {
        lemma_group_members_have_prefix(us.drop_last(), p, m);
    }
}

/// The fields of the first `j` names come first among the fields of all names.
proof fn lemma_grouped_prefix(us: Seq<ActiveUniformInfo>, names: Seq<Seq<u8>>, j: int, i: int)
    requires
        0 <= j <= names.len(),
        0 <= i < spec_grouped(us, names.take(j)).len(),
    ensures
        i < spec_grouped(us, names).len(),
        spec_grouped(us, names)[i] == spec_grouped(us, names.take(j))[i],
    decreases names.len() - j,
{
    if j == names.len() {
        assert(names.take(j) =~= names);
    } else {
        lemma_grouped_push(us, names, j);
        lemma_grouped_prefix(us, names, j + 1, i);
    }
}

/// The `m`th field of the `g`th uniform is the `m`th member of its group.
proof fn lemma_uniform_field(us: Seq<ActiveUniformInfo>, names: Seq<Seq<u8>>, g: int, m: int)
    requires
        0 <= g < names.len(),
        0 <= m < spec_group(us, names[g]).len(),
    ensures
        spec_grouped(us, names.take(g)).len() + m < spec_grouped(us, names).len(),
        spec_grouped(us, names)[spec_grouped(us, names.take(g)).len() + m] == spec_group(
            us,
            names[g],
        )[m],
{
    lemma_grouped_push(us, names, g);
    lemma_grouped_prefix(us, names, g + 1, spec_grouped(us, names.take(g)).len() + m);
}

/// The fields are grouped by name: every field of a uniform has the uniform's name as the part
/// of its name before the first dot.
pub proof fn lemma_fields_share_uniform_prefix(
    data: UniformReflectionData,
    members: Seq<UniformMember>,
    us: Seq<ActiveUniformInfo>,
    g: int,
    k: int,
)
    requires
        data.built_from(members, us),
        0 <= g < data.spec_uniforms().len(),
        data.spec_uniforms()[g].first_field_index.0 <= k < data.spec_uniforms()[g].first_field_index.0
            + data.spec_uniforms()[g].field_count,
    ensures
        spec_name_prefix(data.spec_fields()[k].name@) == data.spec_uniforms()[g].name@,
{
    let names = spec_group_names(spec_prefixes(us));
    let first = spec_grouped(us, names.take(g)).len();
    assert(data.spec_uniforms()[g].name@ == names[g]);
    let m = k - first;
    lemma_uniform_field(us, names, g, m);
    lemma_group_members_have_prefix(us, names[g], m);
    assert(field_from(data.spec_fields()[k], spec_grouped(us, names)[k], k, members));
}

/// No active uniform is lost: each one a program reports is a field, with its name, element
/// count and type, of the uniform named by the part of its name before the first dot.
pub proof fn lemma_active_uniform_is_field(
    data: UniformReflectionData,
    members: Seq<UniformMember>,
    us: Seq<ActiveUniformInfo>,
    j: int,
)
    requires
        data.built_from(members, us),
        0 <= j < us.len(),
    ensures
        exists|g: int, k: int|
            #![trigger data.spec_uniforms()[g], data.spec_fields()[k]]
            {
                &&& 0 <= g < data.spec_uniforms().len()
                &&& data.spec_uniforms()[g].name@ == spec_name_prefix(us[j].name@)
                &&& data.spec_uniforms()[g].first_field_index.0 <= k
                    < data.spec_uniforms()[g].first_field_index.0
                    + data.spec_uniforms()[g].field_count
                &&& data.spec_fields()[k].name@ == us[j].name@
                &&& data.spec_fields()[k].element_count == us[j].size
                &&& data.spec_fields()[k].ty == us[j].ty
            },
{
    let names = spec_group_names(spec_prefixes(us));
    let p = spec_name_prefix(us[j].name@);
    assert(spec_prefixes(us)[j] == p);
    lemma_prefix_in_names(spec_prefixes(us), j);
    let g = choose|g: int| 0 <= g < names.len() && names[g] == p;
    lemma_in_group(us, p, j);
    let m = choose|m: int| 0 <= m < spec_group(us, p).len() && spec_group(us, p)[m] == us[j];
    lemma_uniform_field(us, names, g, m);
    let k = spec_grouped(us, names.take(g)).len() + m;
    assert(field_from(data.spec_fields()[k], spec_grouped(us, names)[k], k, members));
    assert(data.spec_uniforms()[g].name@ == names[g]);
}

} // verus!
