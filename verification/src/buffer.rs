use crate::context::{
    bound_buffer, lemma_bound_buffer_after, Driver, Gl, GlEvent, ARRAY_BUFFER,
    ELEMENT_ARRAY_BUFFER, STATIC_DRAW,
};
use vstd::prelude::*;

verus! {

/// The binding target that a kind of buffer is bound to.
pub trait BufferType {
    spec fn buffer_type() -> u32;

    fn target() -> (t: u32)
        ensures
            t == Self::buffer_type(),
    ;
}

/// Marks a buffer of vertex data.
pub struct BufferTypeArray;

impl BufferType for BufferTypeArray {
    open spec fn buffer_type() -> u32 {
        ARRAY_BUFFER
    }

    fn target() -> (t: u32) {
        ARRAY_BUFFER
    }
}

/// Marks a buffer of vertex indices.
pub struct BufferTypeElementArray;

impl BufferType for BufferTypeElementArray {
    open spec fn buffer_type() -> u32 {
        ELEMENT_ARRAY_BUFFER
    }

    fn target() -> (t: u32) {
        ELEMENT_ARRAY_BUFFER
    }
}

pub type ArrayBuffer = Buffer<BufferTypeArray>;

pub type ElementArrayBuffer = Buffer<BufferTypeElementArray>;

/// The owner of one GPU buffer object. The value cannot be copied, and
/// `delete` consumes it, so the object is released at most once.
pub struct Buffer<B: BufferType> {
    vbo: u32,
    _marker: core::marker::PhantomData<B>,
}

impl<B: BufferType> Buffer<B> {
    /// The name that the GPU gave the buffer.
    pub closed spec fn id(&self) -> u32 {
        self.vbo
    }

    /// Allocates one buffer object.
    pub fn new<D: Driver>(gl: &mut Gl<D>) -> (b: Self)
        ensures
            final(gl).journal() == old(gl).journal().push(GlEvent::GenBuffer { buffer: b.id() }),
    {
        let vbo = gl.gen_buffer();
        Buffer { vbo, _marker: core::marker::PhantomData }
    }

    /// Whether this buffer is the one bound to its target after the calls in
    /// `journal`.
    pub open spec fn is_bound<M, V>(&self, journal: Seq<GlEvent<M, V>>) -> bool {
        bound_buffer(journal, B::buffer_type()) == self.id()
    }

    /// Makes this buffer the current one of its target.
    pub fn bind<D: Driver>(&self, gl: &mut Gl<D>)
        ensures
            final(gl).journal() == old(gl).journal().push(
                GlEvent::BindBuffer { target: B::buffer_type(), buffer: self.id() },
            ),
            self.is_bound(final(gl).journal()),
    {
        gl.bind_buffer(B::target(), self.vbo);
        proof {
            lemma_bound_buffer_after(
                old(gl).journal(),
                GlEvent::BindBuffer { target: B::buffer_type(), buffer: self.id() },
                B::buffer_type(),
            );
        }
    }

    /// Leaves the target with no current buffer.
    pub fn unbind<D: Driver>(&self, gl: &mut Gl<D>)
        ensures
            final(gl).journal() == old(gl).journal().push(
                GlEvent::BindBuffer { target: B::buffer_type(), buffer: 0 },
            ),
    {
        gl.bind_buffer(B::target(), 0);
    }

    /// Replaces the whole contents of this buffer with `data`, marked as
    /// written once and drawn often. The items handed over are `data`
    /// itself, and the size is the number of items times the size of one. The upload goes to whatever is bound to
    /// the buffer's target, so this buffer must be the one bound.
    pub fn static_draw_data<D: Driver>(&self, gl: &mut Gl<D>, data: &[D::Vertex])
        requires
            self.is_bound(old(gl).journal()),
        ensures
            data@.len() * vstd::layout::size_of::<D::Vertex>() <= usize::MAX,
            self.is_bound(final(gl).journal()),
            final(gl).journal() == old(gl).journal().push(
                GlEvent::BufferData {
                    target: B::buffer_type(),
                    size: (data@.len() * vstd::layout::size_of::<D::Vertex>()) as usize,
                    data: data@,
                    usage: STATIC_DRAW,
                },
            ),
    {
        broadcast use vstd::layout::layout_of_slices;

        let size: usize = core::mem::size_of_val(data);
        gl.buffer_data(B::target(), size, data, STATIC_DRAW);
        proof {
            lemma_bound_buffer_after(
                old(gl).journal(),
                GlEvent::BufferData {
                    target: B::buffer_type(),
                    size,
                    data: data@,
                    usage: STATIC_DRAW,
                },
                B::buffer_type(),
            );
        }
    }

    /// Releases the buffer object and ends its owner.
    pub fn delete<D: Driver>(self, gl: &mut Gl<D>)
        ensures
            final(gl).journal() == old(gl).journal().push(
                GlEvent::DeleteBuffer { buffer: self.id() },
            ),
    {
        gl.delete_buffer(self.vbo);
    }
}

/// The owner of one vertex array object.
pub struct VertexArray {
    vao: u32,
}

impl VertexArray {
    /// The name that the GPU gave the vertex array.
    pub closed spec fn id(&self) -> u32 {
        self.vao
    }

    /// Allocates one vertex array object.
    pub fn new<D: Driver>(gl: &mut Gl<D>) -> (v: Self)
        ensures
            final(gl).journal() == old(gl).journal().push(
                GlEvent::GenVertexArray { array: v.id() },
            ),
    {
        let vao = gl.gen_vertex_array();
        VertexArray { vao }
    }

    /// Makes this vertex array the current one.
    pub fn bind<D: Driver>(&self, gl: &mut Gl<D>)
        ensures
            final(gl).journal() == old(gl).journal().push(
                GlEvent::BindVertexArray { array: self.id() },
            ),
    {
        gl.bind_vertex_array(self.vao);
    }

    /// Leaves no vertex array current.
    pub fn unbind<D: Driver>(&self, gl: &mut Gl<D>)
        ensures
            final(gl).journal() == old(gl).journal().push(GlEvent::BindVertexArray { array: 0 }),
    {
        gl.bind_vertex_array(0);
    }

    /// Releases the vertex array object and ends its owner.
    pub fn delete<D: Driver>(self, gl: &mut Gl<D>)
        ensures
            final(gl).journal() == old(gl).journal().push(
                GlEvent::DeleteVertexArray { array: self.id() },
            ),
    {
        gl.delete_vertex_array(self.vao);
    }
}

} // verus!
