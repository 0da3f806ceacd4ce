//! Vertex buffer layouts: attributes packed one after another, each at the
//! next shader location.
use vstd::prelude::*;

verus! {

/// The format of one vertex attribute: a vector of 32-bit components.
#[derive(Clone, Copy, Debug, PartialEq, Eq, Structural)]
pub enum AttributeFormat {
    Components2,
    Components3,
    Components4,
}

pub open spec fn format_size(f: AttributeFormat) -> nat {
    match f {
        AttributeFormat::Components2 => 8,
        AttributeFormat::Components3 => 12,
        AttributeFormat::Components4 => 16,
    }
}

impl AttributeFormat {
    /// Bytes that one attribute of this format takes.
    pub fn size(&self) -> (r: u64)
        ensures
            r == format_size(*self),
    {
        match self {
            AttributeFormat::Components2 => 8,
            AttributeFormat::Components3 => 12,
            AttributeFormat::Components4 => 16,
        }
    }
}

/// Where the attribute at `i` starts: after all the attributes before it.
pub open spec fn offset_of(formats: Seq<AttributeFormat>, i: int) -> nat
    decreases i,
{
    if i <= 0 {
        0
    } else {
        offset_of(formats, i - 1) + format_size(formats[i - 1])
    }
}

/// One attribute of a layout.
#[derive(Clone, Copy, Debug, PartialEq, Eq, Structural)]
pub struct VertexAttribute {
    pub offset: u64,
    pub shader_location: u32,
    pub format: AttributeFormat,
}

/// A per-vertex buffer layout.
pub struct VertexLayout {
    pub array_stride: u64,
    pub attributes: Vec<VertexAttribute>,
}

proof fn lemma_offset_bounded(formats: Seq<AttributeFormat>, i: int)
    requires
        0 <= i <= formats.len(),
    ensures
        offset_of(formats, i) <= 16 * i,
    decreases i,
{
    if i > 0 {
        lemma_offset_bounded(formats, i - 1);
    }
}

/// The layout that packs `formats` in order, without gaps: attribute `i` is
/// read from shader location `i`, and a vertex is as long as all of them.
pub fn packed_layout(formats: &Vec<AttributeFormat>) -> (r: VertexLayout)
    requires
        formats@.len() <= u32::MAX,
    ensures
        r.array_stride == offset_of(formats@, formats@.len() as int),
        r.attributes@.len() == formats@.len(),
        forall|i: int|
            0 <= i < formats@.len() ==> #[trigger] r.attributes@[i] == (VertexAttribute {
                offset: offset_of(formats@, i) as u64,
                shader_location: i as u32,
                format: formats@[i],
            }),
{
    let mut attributes: Vec<VertexAttribute> = Vec::new();
    let mut offset: u64 = 0;
    let mut i: usize = 0;
    while i < formats.len()
        invariant
            formats@.len() <= u32::MAX,
            i <= formats@.len(),
            offset == offset_of(formats@, i as int),
            attributes@.len() == i,
            forall|j: int|
                0 <= j < i ==> #[trigger] attributes@[j] == (VertexAttribute {
                    offset: offset_of(formats@, j) as u64,
                    shader_location: j as u32,
                    format: formats@[j],
                }),
        decreases formats@.len() - i,
    {
        proof {
            lemma_offset_bounded(formats@, i as int + 1);
        }
        let format = formats[i];
        attributes.push(VertexAttribute { offset, shader_location: i as u32, format });
        offset = offset + format.size();
        i = i + 1;
    }
    VertexLayout { array_stride: offset, attributes }
}

/// The layout of the textured vertex: a position of three components at
/// location 0, then texture coordinates of two components at location 1.
pub fn desc() -> (r: VertexLayout)
    ensures
        r.array_stride == 20,
        r.attributes@ == seq![
            VertexAttribute { offset: 0, shader_location: 0, format: AttributeFormat::Components3 },
            VertexAttribute { offset: 12, shader_location: 1, format: AttributeFormat::Components2 },
        ],
{
    let formats = vec![AttributeFormat::Components3, AttributeFormat::Components2];
    let r = packed_layout(&formats);
    proof {
        reveal_with_fuel(offset_of, 3);
    }
    assert(r.attributes@ =~= seq![
        VertexAttribute { offset: 0, shader_location: 0, format: AttributeFormat::Components3 },
        VertexAttribute { offset: 12, shader_location: 1, format: AttributeFormat::Components2 },
    ]);
    r
}

} // verus!
