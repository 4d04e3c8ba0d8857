use crate::context::{Driver, Gl, GlEvent, FLOAT, UNSIGNED_INT_2_10_10_10_REV};
use vstd::prelude::*;

verus! {

/// The largest size in bytes that a single field of a vertex record takes.
pub const MAX_FIELD_BYTES: usize = 12;

/// How one field of a vertex record is laid out in memory and read by the GPU.
#[derive(Clone, Copy, Debug, PartialEq, Eq, Structural)]
pub enum AttributeFormat {
    /// Three 32-bit floating-point components, read as they are.
    Float3,
    /// Four components packed into one 32-bit word as 2, 10, 10 and 10 bits,
    /// read as normalized values.
    Packed2x10x10x10Rev,
}

impl AttributeFormat {
    pub open spec fn spec_byte_size(self) -> nat {
        match self {
            AttributeFormat::Float3 => 12,
            AttributeFormat::Packed2x10x10x10Rev => 4,
        }
    }

    pub open spec fn spec_component_count(self) -> i32 {
        match self {
            AttributeFormat::Float3 => 3,
            AttributeFormat::Packed2x10x10x10Rev => 4,
        }
    }

    pub open spec fn spec_component_type(self) -> u32 {
        match self {
            AttributeFormat::Float3 => FLOAT,
            AttributeFormat::Packed2x10x10x10Rev => UNSIGNED_INT_2_10_10_10_REV,
        }
    }

    pub open spec fn spec_normalized(self) -> bool {
        match self {
            AttributeFormat::Float3 => false,
            AttributeFormat::Packed2x10x10x10Rev => true,
        }
    }

    /// The number of bytes that a field of this format takes in a record.
    pub fn byte_size(&self) -> (r: usize)
        ensures
            r == self.spec_byte_size(),
            r <= MAX_FIELD_BYTES,
    {
        match self {
            AttributeFormat::Float3 => 12,
            AttributeFormat::Packed2x10x10x10Rev => 4,
        }
    }

    /// The number of components that the GPU reads from the field.
    pub fn component_count(&self) -> (r: i32)
        ensures
            r == self.spec_component_count(),
    {
        match self {
            AttributeFormat::Float3 => 3,
            AttributeFormat::Packed2x10x10x10Rev => 4,
        }
    }

    /// The GPU's name for the type of the components.
    pub fn component_type(&self) -> (r: u32)
        ensures
            r == self.spec_component_type(),
    {
        match self {
            AttributeFormat::Float3 => FLOAT,
            AttributeFormat::Packed2x10x10x10Rev => UNSIGNED_INT_2_10_10_10_REV,
        }
    }

    /// Whether the GPU maps integer components into the unit range.
    pub fn normalized(&self) -> (r: bool)
        ensures
            r == self.spec_normalized(),
    {
        match self {
            AttributeFormat::Float3 => false,
            AttributeFormat::Packed2x10x10x10Rev => true,
        }
    }
}

/// One field of a vertex record, in declaration order: the attribute slot it
/// feeds, if one was declared, and its format.
#[derive(Clone, Copy, Debug, PartialEq, Eq, Structural)]
pub struct VertexField {
    pub location: Option<u32>,
    pub format: AttributeFormat,
}

/// The arguments of one attribute-pointer registration.
#[derive(Clone, Copy, Debug, PartialEq, Eq, Structural)]
pub struct AttributePointer {
    pub index: u32,
    pub component_count: i32,
    pub component_type: u32,
    pub normalized: bool,
    pub stride: usize,
    pub offset: usize,
}

/// Why a record's layout cannot be registered.
#[derive(Clone, Copy, Debug, PartialEq, Eq, Structural)]
pub enum LayoutError {
    /// The field at this position declares no attribute slot.
    MissingLocation { field: usize },
}

/// The byte offset of field `i`: the sizes of the fields before it, added up.
/// With `i` the number of fields, this is the size of the whole record.
pub open spec fn offset_of(fields: Seq<VertexField>, i: int) -> nat
    decreases i,
{
    if i <= 0 {
        0
    } else {
        offset_of(fields, i - 1) + fields[i - 1].format.spec_byte_size()
    }
}

/// The byte distance between two consecutive records.
pub open spec fn stride_of(fields: Seq<VertexField>) -> nat {
    offset_of(fields, fields.len() as int)
}

/// Whether every field before position `n` declares an attribute slot.
pub open spec fn located_before(fields: Seq<VertexField>, n: int) -> bool {
    forall|i: int| 0 <= i < n ==> (#[trigger] fields[i]).location is Some
}

/// The registration of field `i`.
pub open spec fn pointer_at(fields: Seq<VertexField>, i: int) -> AttributePointer {
    AttributePointer {
        index: fields[i].location->Some_0,
        component_count: fields[i].format.spec_component_count(),
        component_type: fields[i].format.spec_component_type(),
        normalized: fields[i].format.spec_normalized(),
        stride: stride_of(fields) as usize,
        offset: offset_of(fields, i) as usize,
    }
}

/// The calls that register the first `n` fields: for each field in order, its
/// slot is enabled and then its pointer is set.
pub open spec fn layout_events<M, V>(fields: Seq<VertexField>, n: int) -> Seq<GlEvent<M, V>>
    decreases n,
{
    if n <= 0 {
        Seq::empty()
    } else {
        let p = pointer_at(fields, n - 1);
        layout_events(fields, n - 1).push(GlEvent::EnableVertexAttribArray { index: p.index }).push(
            GlEvent::VertexAttribPointer {
                index: p.index,
                components: p.component_count,
                kind: p.component_type,
                normalized: p.normalized,
                stride: p.stride,
                offset: p.offset,
            },
        )
    }
}

/// Offsets never decrease from one field to the next, and none exceeds the
/// largest field size times the number of fields before it.
pub proof fn lemma_offset_bounds(fields: Seq<VertexField>, i: int, j: int)
    requires
        0 <= i <= j <= fields.len(),
    ensures
        offset_of(fields, i) <= offset_of(fields, j) <= MAX_FIELD_BYTES * j,
    decreases j,
{
    if j > 0 {
        if i < j {
            lemma_offset_bounds(fields, i, j - 1);
        } else {
            lemma_offset_bounds(fields, j - 1, j - 1);
        }
    }
}

/// Every field lies within one record: where it starts plus what it takes
/// does not exceed the stride.
pub proof fn lemma_field_within_stride(fields: Seq<VertexField>, i: int)
    requires
        0 <= i < fields.len(),
    ensures
        offset_of(fields, i) + fields[i].format.spec_byte_size() <= stride_of(fields),
{
    lemma_offset_bounds(fields, i + 1, fields.len() as int);
}

/// Derives the attribute-pointer registrations of a record from its fields.
/// Fails, naming the first field without a declared slot, before anything
/// else is computed.
pub fn attribute_pointers(fields: &Vec<VertexField>) -> (r: Result<Vec<AttributePointer>, LayoutError>)
    requires
        MAX_FIELD_BYTES * fields@.len() <= usize::MAX,
    ensures
        match r {
            Ok(pointers) => {
                &&& located_before(fields@, fields@.len() as int)
                &&& pointers@.len() == fields@.len()
                &&& forall|i: int|
                    0 <= i < fields@.len() ==> #[trigger] pointers@[i] == pointer_at(fields@, i)
            },
            Err(LayoutError::MissingLocation { field }) => {
                &&& field < fields@.len()
                &&& fields@[field as int].location is None
                &&& located_before(fields@, field as int)
            },
        },
{
    let n: usize = fields.len();
    let mut stride: usize = 0;
    let mut i: usize = 0;
    while i < n
        invariant
            n == fields@.len(),
            MAX_FIELD_BYTES * n <= usize::MAX,
            0 <= i <= n,
            stride == offset_of(fields@, i as int),
            located_before(fields@, i as int),
        decreases n - i,
    {
        if fields[i].location.is_none() {
            return Err(LayoutError::MissingLocation { field: i });
        }
        proof {
            lemma_offset_bounds(fields@, i as int + 1, i as int + 1);
        }
        stride = stride + fields[i].format.byte_size();
        i = i + 1;
    }
    let mut pointers: Vec<AttributePointer> = Vec::new();
    let mut offset: usize = 0;
    let mut k: usize = 0;
    while k < n
        invariant
            n == fields@.len(),
            MAX_FIELD_BYTES * n <= usize::MAX,
            0 <= k <= n,
            stride == stride_of(fields@),
            offset == offset_of(fields@, k as int),
            located_before(fields@, n as int),
            pointers@.len() == k,
            forall|j: int| 0 <= j < k ==> #[trigger] pointers@[j] == pointer_at(fields@, j),
        decreases n - k,
    {
        let field = fields[k];
        let index: u32 = match field.location {
            Some(index) => index,
            None => 0,
        };
        pointers.push(
            AttributePointer {
                index,
                component_count: field.format.component_count(),
                component_type: field.format.component_type(),
                normalized: field.format.normalized(),
                stride,
                offset,
            },
        );
        proof {
            lemma_offset_bounds(fields@, k as int + 1, k as int + 1);
        }
        offset = offset + field.format.byte_size();
        k = k + 1;
    }
    Ok(pointers)
}

/// Registers a record's layout with the vertex array that is bound: one
/// enable call and one pointer call per field, in field order. Where a field
/// declares no slot, fails as `attribute_pointers` does and issues nothing.
pub fn vertex_attrib_pointers<D: Driver>(gl: &mut Gl<D>, fields: &Vec<VertexField>) -> (r: Result<
    (),
    LayoutError,
>)
    requires
        MAX_FIELD_BYTES * fields@.len() <= usize::MAX,
    ensures
        match r {
            Ok(()) => {
                &&& located_before(fields@, fields@.len() as int)
                &&& final(gl).journal() == old(gl).journal() + layout_events::<D::Matrix, D::Vertex>(
                    fields@,
                    fields@.len() as int,
                )
            },
            Err(LayoutError::MissingLocation { field }) => {
                &&& field < fields@.len()
                &&& fields@[field as int].location is None
                &&& located_before(fields@, field as int)
                &&& final(gl).journal() == old(gl).journal()
            },
        },
{
    let pointers = match attribute_pointers(fields) {
        Ok(pointers) => pointers,
        Err(e) => {
            return Err(e);
        },
    };
    let n: usize = pointers.len();
    let mut i: usize = 0;
    assert(old(gl).journal() + layout_events::<D::Matrix, D::Vertex>(fields@, 0) =~= old(gl).journal());
    while i < n
        invariant
            n == fields@.len(),
            pointers@.len() == n,
            0 <= i <= n,
            forall|j: int| 0 <= j < n ==> #[trigger] pointers@[j] == pointer_at(fields@, j),
            gl.journal() == old(gl).journal() + layout_events::<D::Matrix, D::Vertex>(fields@, i as int),
        decreases n - i,
    {
        let p = pointers[i];
        gl.enable_vertex_attrib_array(p.index);
        gl.vertex_attrib_pointer(
            p.index,
            p.component_count,
            p.component_type,
            p.normalized,
            p.stride,
            p.offset,
        );
        assert(gl.journal() =~= old(gl).journal() + layout_events::<D::Matrix, D::Vertex>(
            fields@,
            i as int + 1,
        ));
        i = i + 1;
    }
    Ok(())
}

} // verus!
