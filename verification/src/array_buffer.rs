//! Vertex-buffer layout description.
//!
//! A [`BufferLayout`] records, for one vertex record, the type of every
//! attribute, the byte offset at which each attribute starts, and the
//! stride between consecutive records. [`ArrayBuffer`] pairs a layout
//! with the handle of the device buffer that holds the records; the host
//! allocates the handle, this crate never touches the device.

use vstd::prelude::*;

verus! {

/// Types an attribute in a vertex record can have.
#[derive(Clone, Copy, PartialEq, Eq, Structural, Debug)]
pub enum AttributeType {
    Float,
    Vec2f,
    Vec3f,
    Vec4f,
    Int,
}

impl AttributeType {
    /// Size of the attribute in bytes.
    pub open spec fn size_spec(self) -> u32 {
        match self {
            AttributeType::Float => 4,
            AttributeType::Vec2f => 8,
            AttributeType::Vec3f => 12,
            AttributeType::Vec4f => 16,
            AttributeType::Int => 4,
        }
    }

    /// Get the size of the attribute (in bytes).
    pub fn size(&self) -> (r: u32)
        ensures
            r == self.size_spec(),
    {
        match *self {
            AttributeType::Float => 4,
            AttributeType::Vec2f => 4 * 2,
            AttributeType::Vec3f => 4 * 3,
            AttributeType::Vec4f => 4 * 4,
            AttributeType::Int => 4,
        }
    }

    /// Number of scalar components of the attribute.
    pub open spec fn component_count_spec(self) -> u32 {
        match self {
            AttributeType::Float => 1,
            AttributeType::Vec2f => 2,
            AttributeType::Vec3f => 3,
            AttributeType::Vec4f => 4,
            AttributeType::Int => 1,
        }
    }

    /// Get the number of components of the attribute.
    pub fn component_count(&self) -> (r: u32)
        ensures
            r == self.component_count_spec(),
    {
        match *self {
            AttributeType::Float => 1,
            AttributeType::Vec2f => 2,
            AttributeType::Vec3f => 3,
            AttributeType::Vec4f => 4,
            AttributeType::Int => 1,
        }
    }

    /// Whether the attribute holds integer components rather than
    /// floating-point ones; the host wires such an attribute through the
    /// device's integer attribute-pointer entry point.
    pub open spec fn is_integer_spec(self) -> bool {
        self is Int
    }

    /// Tell integer attributes apart from floating-point ones.
    pub fn is_integer(&self) -> (r: bool)
        ensures
            r == self.is_integer_spec(),
    {
        match *self {
            AttributeType::Int => true,
            _ => false,
        }
    }
}

/// Defines an attribute of a buffer.
#[derive(Clone, Copy, PartialEq, Eq, Structural, Debug)]
pub struct BufferAttribute {
    pub attribute_type: AttributeType,
    pub normalized: bool,
}

impl BufferAttribute {
    /// Creates a new `BufferAttribute`.
    pub fn new(attribute_type: AttributeType, normalized: bool) -> (r: Self)
        ensures
            r == (BufferAttribute { attribute_type, normalized }),
    {
        BufferAttribute { attribute_type, normalized }
    }

    /// Get the attribute type.
    pub fn attribute_type(self) -> (r: AttributeType)
        ensures
            r == self.attribute_type,
    {
        self.attribute_type
    }

    /// Get whether the attribute is normalized.
    pub fn normalized(self) -> (r: bool)
        ensures
            r == self.normalized,
    {
        self.normalized
    }
}

/// Total size in bytes of the first `i` attributes: the byte offset at
/// which attribute `i` starts.
pub open spec fn prefix_size(attrs: Seq<BufferAttribute>, i: int) -> int
    decreases i,
{
    if i <= 0 {
        0
    } else {
        prefix_size(attrs, i - 1) + attrs[i - 1].attribute_type.size_spec()
    }
}

/// Each attribute is at most 16 bytes, so the first `i` attributes
/// occupy at most `16 · i` bytes.
pub proof fn lemma_prefix_size_bound(attrs: Seq<BufferAttribute>, i: int)
    requires
        0 <= i,
    ensures
        0 <= prefix_size(attrs, i) <= 16 * i,
    decreases i,
{
    if i > 0 {
        lemma_prefix_size_bound(attrs, i - 1);
    }
}

/// Most attributes a layout may describe; keeps every byte offset within
/// the 32-bit range the device API uses.
pub const MAX_LAYOUT_ATTRIBUTES: usize = 0x0800_0000;

/// Describes the layout of an array buffer.
#[derive(Debug)]
pub struct BufferLayout {
    pub attributes: Vec<BufferAttribute>,
    pub offsets: Vec<u32>,
    pub stride: u32,
}

impl BufferLayout {
    /// The offsets name where each attribute starts and the stride is the
    /// total size of one record.
    pub open spec fn wf(self) -> bool {
        &&& self.offsets@.len() == self.attributes@.len()
        &&& forall|i: int|
            0 <= i < self.attributes@.len() ==> self.offsets@[i] == prefix_size(
                self.attributes@,
                i,
            )
        &&& self.stride == prefix_size(self.attributes@, self.attributes@.len() as int)
    }

    /// Creates a new `BufferLayout`: attribute `i` is laid out at the byte
    /// offset where attribute `i - 1` ends, and the stride is the sum of
    /// all the attribute sizes.
    pub fn new(attributes: Vec<BufferAttribute>) -> (r: Self)
        requires
            attributes@.len() <= MAX_LAYOUT_ATTRIBUTES,
        ensures
            r.wf(),
            r.attributes@ == attributes@,
    {
        let n = attributes.len();
        let mut offsets: Vec<u32> = Vec::new();
        let mut offset: u32 = 0;
        for i in 0..n
            invariant
                n == attributes@.len() <= MAX_LAYOUT_ATTRIBUTES,
                offsets@.len() == i,
                forall|j: int| 0 <= j < i ==> offsets@[j] == prefix_size(attributes@, j),
                offset == prefix_size(attributes@, i as int),
        {
            proof {
                lemma_prefix_size_bound(attributes@, i + 1);
            }
            offsets.push(offset);
            offset = offset + attributes[i].attribute_type().size();
        }
        BufferLayout { attributes, offsets, stride: offset }
    }

    /// Get the layout attributes.
    pub fn attributes(&self) -> (r: &Vec<BufferAttribute>)
        ensures
            r@ == self.attributes@,
    {
        &self.attributes
    }

    /// Get the offsets (in bytes) for each attribute.
    pub fn offsets(&self) -> (r: &Vec<u32>)
        ensures
            r@ == self.offsets@,
    {
        &self.offsets
    }

    /// Get the stride (in bytes) between each array element.
    pub fn stride(&self) -> (r: u32)
        ensures
            r == self.stride,
    {
        self.stride
    }
}

/// A buffer of graphics data: the handle of a device buffer together with
/// the layout of the records it holds. The host allocates the device
/// buffer and owns its lifetime.
#[derive(Debug)]
pub struct ArrayBuffer {
    pub id: u32,
    pub layout: BufferLayout,
}

impl ArrayBuffer {
    /// Creates a new `ArrayBuffer` around a host-allocated buffer handle.
    pub fn new(id: u32, layout: BufferLayout) -> (r: Self)
        ensures
            r.id == id,
            r.layout.attributes@ == layout.attributes@,
            r.layout.offsets@ == layout.offsets@,
            r.layout.stride == layout.stride,
            layout.wf() ==> r.layout.wf(),
    {
        ArrayBuffer { id, layout }
    }

    /// Get the buffer's layout.
    pub fn layout(&self) -> (r: &BufferLayout)
        ensures
            r.attributes@ == self.layout.attributes@,
            r.offsets@ == self.layout.offsets@,
            r.stride == self.layout.stride,
    {
        &self.layout
    }
}

} // verus!
