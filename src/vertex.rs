use std::rc::Rc;
use vstd::prelude::*;

verus! {

/// A vertex attribute slot of a linked program.
#[derive(Clone, Copy, Debug, PartialEq, Eq, Structural)]
pub struct Attrib {
    pub id: u32,
}

/// The numeric encoding of one element of an index buffer.
#[derive(Clone, Copy, Debug, PartialEq, Eq, Structural)]
pub enum IndexType {
    UnsignedByte,
    UnsignedShort,
    UnsignedInt,
}

impl IndexType {
    pub open spec fn width_spec(self) -> nat {
        match self {
            IndexType::UnsignedByte => 1,
            IndexType::UnsignedShort => 2,
            IndexType::UnsignedInt => 4,
        }
    }

    /// Bytes taken by one index of this encoding.
    pub fn byte_width(&self) -> (r: usize)
        ensures
            r == self.width_spec(),
    {
        match self {
            IndexType::UnsignedByte => 1,
            IndexType::UnsignedShort => 2,
            IndexType::UnsignedInt => 4,
        }
    }
}

/// Number of bytes uploaded for `count` elements of `elem_size` bytes each.
pub fn byte_len(count: usize, elem_size: usize) -> (r: usize)
    requires
        count * elem_size <= isize::MAX,
    ensures
        r == count * elem_size,
{
    count * elem_size
}

/// A buffer object holding vertex data, uploaded once.
#[derive(Debug)]
pub struct VertexBuffer {
    id: u32,
}

impl VertexBuffer {
    pub closed spec fn handle(&self) -> u32 {
        self.id
    }

    /// Wraps the handle of a buffer object whose data has been uploaded.
    pub fn from_handle(id: u32) -> (r: VertexBuffer)
        ensures
            r.handle() == id,
    {
        VertexBuffer { id }
    }

    /// Same as `from_handle`, shared so that several vertex arrays can hold it.
    pub fn rc_from_handle(id: u32) -> (r: Rc<VertexBuffer>)
        ensures
            r.handle() == id,
    {
        Rc::new(VertexBuffer::from_handle(id))
    }

    pub fn id(&self) -> (r: u32)
        ensures
            r == self.handle(),
    {
        self.id
    }
}

/// A buffer object holding index data, with the encoding of its elements.
#[derive(Debug)]
pub struct IndexBuffer {
    id: u32,
    data_type: IndexType,
}

impl IndexBuffer {
    pub closed spec fn handle(&self) -> u32 {
        self.id
    }

    pub closed spec fn encoding(&self) -> IndexType {
        self.data_type
    }

    /// Wraps the handle of an index buffer whose data has been uploaded.
    pub fn from_handle(id: u32, data_type: IndexType) -> (r: IndexBuffer)
        ensures
            r.handle() == id,
            r.encoding() == data_type,
    {
        IndexBuffer { id, data_type }
    }

    pub fn id(&self) -> (r: u32)
        ensures
            r == self.handle(),
    {
        self.id
    }

    pub fn data_type(&self) -> (r: IndexType)
        ensures
            r == self.encoding(),
    {
        self.data_type
    }
}

/// A primitive draw that the bound vertex array owes the driver.
#[derive(Clone, Copy, Debug, PartialEq, Eq, Structural)]
pub enum DrawCall {
    /// Non-indexed: `count` vertices from `first`.
    Arrays { mode: u32, first: i32, count: i32 },
    /// Indexed: `count` indices from byte `offset` of the index buffer, read
    /// with the encoding that buffer was made with.
    Elements { mode: u32, count: i32, index_type: IndexType, offset: usize },
}

/// The layout of one attribute within the vertex buffer bound beside it.
#[derive(Clone, Copy, Debug, PartialEq, Eq, Structural)]
pub struct AttribPointer {
    pub buffer: u32,
    pub attrib: Attrib,
    pub size: i32,
    pub data_type: u32,
    pub stride: i32,
    pub offset: usize,
}

/// A vertex array object with the buffers it draws from.
///
/// Vertex buffers are shared (`Rc`): one may back several arrays and lives
/// as long as its last holder. The index buffer, at most one, is owned by the
/// array alone and replaced whole when another is bound.
pub struct VertexArray<V, I> {
    vao: u32,
    vbo_refs: Vec<Rc<V>>,
    ibo_ref: Option<(I, IndexType)>,
}

impl<V, I> VertexArray<V, I> {
    pub closed spec fn handle(&self) -> u32 {
        self.vao
    }

    pub closed spec fn vertex_buffers(&self) -> Seq<V> {
        self.vbo_refs@.map_values(|r: Rc<V>| *r)
    }

    pub closed spec fn index_buffer(&self) -> Option<(I, IndexType)> {
        self.ibo_ref
    }

    /// Starts the construction of the array object `vao`, which the caller
    /// has just generated and bound.
    pub fn new(vao: u32) -> (r: VertexArrayInitContext<V, I>)
        ensures
            r.array().handle() == vao,
            r.array().vertex_buffers() == Seq::<V>::empty(),
            r.array().index_buffer() is None,
    {
        let va = VertexArray { vao, vbo_refs: Vec::new(), ibo_ref: None };
        proof {
            assert(va.vertex_buffers() =~= Seq::<V>::empty());
        }
        VertexArrayInitContext { va }
    }

    /// The context in which draws on this array are issued; the caller binds
    /// the array object (`handle`) before using it.
    pub fn bind_vao(&self) -> (r: VertexArrayContext<'_, V, I>)
        ensures
            r.array() == self,
    {
        VertexArrayContext { va: self }
    }

    pub fn id(&self) -> (r: u32)
        ensures
            r == self.handle(),
    {
        self.vao
    }

    /// Takes the array apart when it is destroyed: its handle, its index
    /// buffer and its shares of the vertex buffers, in the order bound.
    pub fn into_parts(self) -> (r: (u32, Vec<Rc<V>>, Option<(I, IndexType)>))
        ensures
            r.0 == self.handle(),
            r.1@.map_values(|b: Rc<V>| *b) == self.vertex_buffers(),
            r.2 == self.index_buffer(),
    {
        (self.vao, self.vbo_refs, self.ibo_ref)
    }
}

/// The context of an array under construction: the only way to bind buffers
/// to it.
pub struct VertexArrayInitContext<V, I> {
    va: VertexArray<V, I>,
}

impl<V, I> VertexArrayInitContext<V, I> {
    pub closed spec fn array(&self) -> VertexArray<V, I> {
        self.va
    }

    /// Records a share of `vbo`, which the caller has bound as the array
    /// buffer, and opens the context for its attribute layout.
    pub fn bind_vbo(&mut self, vbo: Rc<V>, buffer: u32) -> (r: VertexArrayBufferContext)
        ensures
            final(self).array().handle() == old(self).array().handle(),
            final(self).array().vertex_buffers() == old(self).array().vertex_buffers().push(*vbo),
            final(self).array().index_buffer() == old(self).array().index_buffer(),
            r.buffer() == buffer,
    {
        let ghost prev = self.va.vbo_refs@;
        self.va.vbo_refs.push(vbo);
        proof {
            assert(self.va.vbo_refs@.map_values(|b: Rc<V>| *b) =~= prev.map_values(
                |b: Rc<V>| *b,
            ).push(*vbo));
        }
        VertexArrayBufferContext { buffer }
    }

    /// Makes `ibo`, which the caller has bound as the element buffer, the
    /// array's sole index buffer, in place of any earlier one.
    pub fn bind_ibo(&mut self, ibo: I, data_type: IndexType)
        ensures
            final(self).array().handle() == old(self).array().handle(),
            final(self).array().vertex_buffers() == old(self).array().vertex_buffers(),
            final(self).array().index_buffer() == Some((ibo, data_type)),
    {
        self.va.ibo_ref = Some((ibo, data_type));
    }

    /// Ends construction.
    pub fn finish(self) -> (r: VertexArray<V, I>)
        ensures
            r == self.array(),
    {
        self.va
    }
}

/// The context of a bound array: the only way to draw from it.
pub struct VertexArrayContext<'a, V, I> {
    va: &'a VertexArray<V, I>,
}

impl<'a, V, I> VertexArrayContext<'a, V, I> {
    pub closed spec fn array(&self) -> &'a VertexArray<V, I> {
        self.va
    }

    /// Whether an index buffer is bound, as an indexed draw requires.
    pub fn has_index_buffer(&self) -> (r: bool)
        ensures
            r == self.array().index_buffer() is Some,
    {
        self.va.ibo_ref.is_some()
    }

    /// A non-indexed draw.
    pub fn draw_arrays(&self, mode: u32, first: i32, count: i32) -> (r: DrawCall)
        ensures
            r == (DrawCall::Arrays { mode, first, count }),
    {
        DrawCall::Arrays { mode, first, count }
    }

    /// An indexed draw, read with the encoding of the bound index buffer.
    /// Drawing indexed geometry with no index buffer bound is a caller error.
    pub fn draw_elements(&self, mode: u32, count: i32, offset: usize) -> (r: DrawCall)
        requires
            self.array().index_buffer() is Some,
        ensures
            r == (DrawCall::Elements {
                mode,
                count,
                index_type: (self.array().index_buffer()->0).1,
                offset,
            }),
    {
        match &self.va.ibo_ref {
            Some(ibo) => DrawCall::Elements { mode, count, index_type: ibo.1, offset },
            None => DrawCall::Arrays { mode, first: 0, count: 0 },
        }
    }
}

/// The context right after a vertex buffer was bound: the only way to
/// declare attribute layouts, so that each one reads from that buffer.
pub struct VertexArrayBufferContext {
    buffer: u32,
}

impl VertexArrayBufferContext {
    pub closed spec fn buffer(&self) -> u32 {
        self.buffer
    }

    /// Declares that `a` reads `data_size` components of `data_type`, every
    /// `stride` bytes from byte `offset` of the bound buffer.
    pub fn attr_pointer(&self, a: Attrib, data_size: i32, data_type: u32, stride: i32, offset: usize) -> (r: AttribPointer)
        ensures
            r == (AttribPointer {
                buffer: self.buffer(),
                attrib: a,
                size: data_size,
                data_type,
                stride,
                offset,
            }),
    {
        AttribPointer { buffer: self.buffer, attrib: a, size: data_size, data_type, stride, offset }
    }
}

} // verus!
