//! Vertex attribute formats, and the table that binds the fields of a packed
//! vertex record to attribute slots.

use crate::gl::creations;
use crate::gl::deletions;
use crate::gl::lemma_counts_add;
use crate::gl::Gl;
use crate::gl::GlCall;
use crate::gl::FALSE;
use crate::gl::FLOAT;
use vstd::prelude::*;

verus! {

/// The format of one vertex attribute: two, three or four 32-bit floats.
#[allow(non_camel_case_types)]
#[derive(Debug, Clone, Copy, PartialEq, Eq, Structural)]
pub enum AttribFormat {
    Float32_32,
    Float32_32_32,
    Float32_32_32_32,
}

impl AttribFormat {
    /// How many floats the attribute has.
    pub open spec fn components(self) -> i32 {
        match self {
            AttribFormat::Float32_32 => 2,
            AttribFormat::Float32_32_32 => 3,
            AttribFormat::Float32_32_32_32 => 4,
        }
    }

    /// How many bytes the attribute takes in a packed record: four a float.
    pub open spec fn size(self) -> usize {
        match self {
            AttribFormat::Float32_32 => 8,
            AttribFormat::Float32_32_32 => 12,
            AttribFormat::Float32_32_32_32 => 16,
        }
    }

    /// Computes `components`.
    pub fn component_count(self) -> (count: i32)
        ensures
            count == self.components(),
    {
        match self {
            AttribFormat::Float32_32 => 2,
            AttribFormat::Float32_32_32 => 3,
            AttribFormat::Float32_32_32_32 => 4,
        }
    }

    /// Computes `size`.
    pub fn size_of(self) -> (size: usize)
        ensures
            size == self.size(),
    {
        match self {
            AttribFormat::Float32_32 => 8,
            AttribFormat::Float32_32_32 => 12,
            AttribFormat::Float32_32_32_32 => 16,
        }
    }

    /// The two calls that bind an attribute of this format: switch the slot
    /// on, then say where in each record its floats lie. Slot and stride are
    /// cut to the width the driver takes them in.
    pub open spec fn pointer_calls(self, location: usize, stride: usize, offset: usize) -> Seq<
        GlCall,
    > {
        seq![
            GlCall::EnableVertexAttribArray { index: location as u32 },
            GlCall::VertexAttribPointer {
                index: location as u32,
                size: self.components(),
                component_type: FLOAT,
                normalized: FALSE,
                stride: stride as i32,
                offset,
            },
        ]
    }

    /// Binds an attribute of this format to the slot `location`, for records
    /// `stride` bytes apart with the attribute `offset` bytes into each.
    pub fn vertex_attrib_pointer(self, gl: &mut Gl, location: usize, stride: usize, offset: usize)
        ensures
            final(gl).issued() == old(gl).issued() + self.pointer_calls(location, stride, offset),
            final(gl).staged() == old(gl).staged(),
            final(gl).next_name() == old(gl).next_name(),
    {
        let index = #[verifier::truncate]
        (location as u32);
        gl.issue(GlCall::EnableVertexAttribArray { index });
        gl.issue(
            GlCall::VertexAttribPointer {
                index,
                size: self.component_count(),
                component_type: FLOAT,
                normalized: FALSE,
                stride: #[verifier::truncate]
                (stride as i32),
                offset,
            },
        );
        assert(gl.issued() =~= old(gl).issued() + self.pointer_calls(location, stride, offset));
    }
}

/// One field of a vertex record: the slot it is bound to and its format.
#[derive(Debug, Clone, Copy, PartialEq, Eq, Structural)]
pub struct VertexAttrib {
    pub location: usize,
    pub format: AttribFormat,
}

/// The size of a packed record with these fields: the sum of their sizes.
pub open spec fn record_size(fields: Seq<VertexAttrib>) -> nat
    decreases fields.len(),
{
    if fields.len() == 0 {
        0
    } else {
        record_size(fields.drop_last()) + fields.last().format.size() as nat
    }
}

/// Where in the record the field `index` begins: behind all fields before it.
pub open spec fn field_offset(fields: Seq<VertexAttrib>, index: int) -> nat {
    record_size(fields.take(index))
}

/// The calls that bind the first `count` fields of a record, field after
/// field, each at its offset, with the size of the whole record as the stride.
pub open spec fn binding_calls(fields: Seq<VertexAttrib>, count: int) -> Seq<GlCall>
    decreases count,
{
    if count <= 0 {
        Seq::empty()
    } else {
        binding_calls(fields, count - 1) + fields[count - 1].format.pointer_calls(
            fields[count - 1].location,
            record_size(fields) as usize,
            field_offset(fields, count - 1) as usize,
        )
    }
}

/// A record grows with every field put behind it.
pub proof fn lemma_record_size_grows(fields: Seq<VertexAttrib>, index: int)
    requires
        0 <= index <= fields.len(),
    ensures
        record_size(fields.take(index)) <= record_size(fields),
    decreases fields.len() - index,
{
    if index < fields.len() {
        lemma_record_size_grows(fields, index + 1);
        assert(fields.take(index + 1).drop_last() =~= fields.take(index));
    } else {
        assert(fields.take(index) =~= fields);
    }
}

/// Every field lies within the record, and the next field begins where it
/// ends: no two fields overlap and none is left out of the stride.
pub proof fn lemma_fields_tile_record(fields: Seq<VertexAttrib>, index: int)
    requires
        0 <= index < fields.len(),
    ensures
        field_offset(fields, index) + fields[index].format.size() == field_offset(
            fields,
            index + 1,
        ),
        field_offset(fields, index + 1) <= record_size(fields),
        field_offset(fields, 0) == 0,
        field_offset(fields, fields.len() as int) == record_size(fields),
{
    assert(fields.take(index + 1).drop_last() =~= fields.take(index));
    assert(fields.take(index + 1).last() == fields[index]);
    lemma_record_size_grows(fields, index + 1);
    assert(fields.take(fields.len() as int) =~= fields);
    assert(fields.take(0).len() == 0);
}

/// Binding fields creates no object and releases none.
pub proof fn lemma_binding_is_neutral(fields: Seq<VertexAttrib>, count: int)
    ensures
        creations(binding_calls(fields, count)) == 0,
        deletions(binding_calls(fields, count)) == 0,
    decreases count,
{
    if count > 0 {
        reveal_with_fuel(creations, 3);
        reveal_with_fuel(deletions, 3);
        lemma_binding_is_neutral(fields, count - 1);
        lemma_counts_add(
            binding_calls(fields, count - 1),
            fields[count - 1].format.pointer_calls(
                fields[count - 1].location,
                record_size(fields) as usize,
                field_offset(fields, count - 1) as usize,
            ),
        );
    }
}

/// Computes `record_size`; `None` where it does not fit the machine's word.
pub fn stride_of(fields: &Vec<VertexAttrib>) -> (stride: Option<usize>)
    ensures
        match stride {
            Some(stride) => stride == record_size(fields@),
            None => record_size(fields@) > usize::MAX,
        },
{
    let mut stride: usize = 0;
    let mut i: usize = 0;
    while i < fields.len()
        invariant
            i <= fields.len(),
            stride == record_size(fields@.take(i as int)),
        decreases fields.len() - i,
    {
        proof {
            lemma_fields_tile_record(fields@, i as int);
        }
        match stride.checked_add(fields[i].format.size_of()) {
            Some(next) => {
                stride = next;
            },
            None => {
                return None;
            },
        }
        i = i + 1;
    }
    assert(fields@.take(i as int) =~= fields@);
    Some(stride)
}

/// Binds the fields of a packed vertex record to their slots, in the order
/// of the table: the stride is the size of the record, and each field's
/// offset is the size of all fields before it. A record too large for the
/// machine's word is not bound: nothing is issued and `false` comes back.
pub fn vertex_attrib_pointers(gl: &mut Gl, fields: &Vec<VertexAttrib>) -> (bound: bool)
    ensures
        bound == (record_size(fields@) <= usize::MAX),
        bound ==> final(gl).issued() == old(gl).issued() + binding_calls(
            fields@,
            fields@.len() as int,
        ),
        !bound ==> final(gl).issued() == old(gl).issued(),
        final(gl).staged() == old(gl).staged(),
        final(gl).next_name() == old(gl).next_name(),
{
    let stride = match stride_of(fields) {
        Some(stride) => stride,
        None => {
            return false;
        },
    };
    let mut offset: usize = 0;
    let mut i: usize = 0;
    while i < fields.len()
        invariant
            i <= fields.len(),
            stride == record_size(fields@),
            offset == field_offset(fields@, i as int),
            gl.issued() == old(gl).issued() + binding_calls(fields@, i as int),
            gl.staged() == old(gl).staged(),
            gl.next_name() == old(gl).next_name(),
        decreases fields.len() - i,
    {
        proof {
            lemma_fields_tile_record(fields@, i as int);
        }
        let field = fields[i];
        let ghost before = gl.issued();
        field.format.vertex_attrib_pointer(gl, field.location, stride, offset);
        assert(gl.issued() =~= old(gl).issued() + binding_calls(fields@, i + 1)) by {
            assert(binding_calls(fields@, i + 1) == binding_calls(fields@, i as int)
                + field.format.pointer_calls(field.location, stride, offset));
        }
        offset = offset + field.format.size_of();
        i = i + 1;
    }
    true
}

} // verus!
