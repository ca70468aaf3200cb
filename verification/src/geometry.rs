//! The quad's geometry: vertex and index data, their byte images as the GPU
//! reads them, and the vertex layout.

use vstd::prelude::*;

verus! {

/// The four bytes of `word`, least significant first.
pub open spec fn le_bytes(word: u32) -> Seq<u8> {
    seq![
        (word % 256) as u8,
        (word / 256 % 256) as u8,
        (word / 65536 % 256) as u8,
        (word / 16777216) as u8,
    ]
}

/// The four bytes of `word`, most significant first.
pub open spec fn be_bytes(word: u32) -> Seq<u8> {
    seq![
        (word / 16777216) as u8,
        (word / 65536 % 256) as u8,
        (word / 256 % 256) as u8,
        (word % 256) as u8,
    ]
}

/// `bytes` is `word` as some machine keeps it in memory: its four bytes in
/// little-endian or in big-endian order.
pub open spec fn is_native_word(word: u32, bytes: Seq<u8>) -> bool {
    bytes == le_bytes(word) || bytes == be_bytes(word)
}

/// The `i`-th group of four bytes of `bytes`.
pub open spec fn word_at(bytes: Seq<u8>, i: int) -> Seq<u8> {
    bytes.subrange(4 * i, 4 * i + 4)
}

/// `bytes` holds `words` one after the other, each in the machine's byte order.
pub open spec fn is_native_image(words: Seq<u32>, bytes: Seq<u8>) -> bool {
    &&& bytes.len() == 4 * words.len()
    &&& forall|i: int|
        0 <= i < words.len() ==> is_native_word(words[i], #[trigger] word_at(bytes, i))
}

/// Trusted: `u32::to_ne_bytes`, which std documents as the integer's memory
/// representation in the target's native byte order. Rust targets are
/// little-endian or big-endian, so the result is one of the two orders; which
/// one is left open.
#[verifier::external_body]
fn native_word_bytes(word: u32) -> (bytes: [u8; 4])
    ensures
        is_native_word(word, bytes@),
{
    word.to_ne_bytes()
}

/// The bytes that a GPU buffer receives for `words`: every word as it lies in
/// this machine's memory, in order.
pub fn native_image(words: &[u32]) -> (bytes: Vec<u8>)
    ensures
        is_native_image(words@, bytes@),
{
    let mut bytes: Vec<u8> = Vec::new();
    let mut i: usize = 0;
    while i < words.len()
        invariant
            i <= words.len(),
            bytes@.len() == 4 * i,
            forall|k: int| 0 <= k < i ==> is_native_word(words@[k], #[trigger] word_at(bytes@, k)),
        decreases words.len() - i,
    {
        let ghost before = bytes@;
        let group = native_word_bytes(words[i]);
        bytes.push(group[0]);
        bytes.push(group[1]);
        bytes.push(group[2]);
        bytes.push(group[3]);
        proof {
            assert(word_at(bytes@, i as int) =~= group@);
            assert forall|k: int| 0 <= k < i implies is_native_word(
                words@[k],
                #[trigger] word_at(bytes@, k),
            ) by {
                assert(word_at(bytes@, k) =~= word_at(before, k));
            }
        }
        i += 1;
    }
    bytes
}

/// 0.0 as an IEEE 754 single-precision bit pattern. Vertex components are kept
/// as bit patterns: the GPU receives exactly these bits.
pub const F32_ZERO: u32 = 0x0000_0000;

/// 1.0 as an IEEE 754 single-precision bit pattern.
pub const F32_ONE: u32 = 0x3F80_0000;

/// 0.5 as an IEEE 754 single-precision bit pattern.
pub const F32_HALF: u32 = 0x3F00_0000;

/// -0.5 as an IEEE 754 single-precision bit pattern.
pub const F32_NEG_HALF: u32 = 0xBF00_0000;

/// Number of 32-bit floats that make up one vertex: three for the position,
/// three for the colour, two for the texture coordinate.
pub const FLOATS_PER_VERTEX: usize = 8;

/// Number of vertices of the quad.
pub const QUAD_VERTEX_COUNT: usize = 4;

/// Size of one 32-bit float in bytes.
pub const BYTES_PER_FLOAT: i32 = 4;

/// Size of one vertex in bytes.
pub const VERTEX_STRIDE: i32 = 32;

/// One call of the sequence that describes the vertex layout to the GPU.
#[derive(PartialEq, Eq, Structural, Clone, Copy, Debug)]
pub enum LayoutStep {
    /// Attribute `index` reads `components` floats, starting `offset` bytes
    /// into each vertex; consecutive vertices lie `stride` bytes apart.
    Pointer { index: u32, components: i32, stride: i32, offset: i32 },
    /// Attribute array `index` is switched on.
    Enable { index: u32 },
}

impl LayoutStep {
    /// A pointer step reads inside one vertex: it starts at or after the
    /// vertex's first byte and ends at or before its last.
    pub open spec fn within_vertex(self) -> bool {
        match self {
            LayoutStep::Pointer { components, stride, offset, .. } => {
                &&& 1 <= components <= 4
                &&& 0 <= offset
                &&& offset + components * BYTES_PER_FLOAT <= stride
            },
            LayoutStep::Enable { .. } => true,
        }
    }
}

/// The layout calls for the quad, in the order in which they are made.
pub open spec fn quad_layout() -> Seq<LayoutStep> {
    seq![
        LayoutStep::Pointer { index: 0, components: 3, stride: 32, offset: 12 },
        LayoutStep::Enable { index: 1 },
        LayoutStep::Pointer { index: 1, components: 3, stride: 32, offset: 12 },
        LayoutStep::Enable { index: 1 },
        LayoutStep::Pointer { index: 2, components: 2, stride: 32, offset: 8 },
        LayoutStep::Enable { index: 2 },
    ]
}

/// The quad's vertices as float bit patterns, eight per vertex: top right,
/// bottom right, bottom left, top left.
pub open spec fn quad_vertices() -> Seq<u32> {
    seq![
        F32_HALF, F32_HALF, F32_ZERO, F32_ONE, F32_ZERO, F32_ZERO, F32_ONE, F32_ONE,
        F32_HALF, F32_NEG_HALF, F32_ZERO, F32_ZERO, F32_ONE, F32_ZERO, F32_ONE, F32_ZERO,
        F32_NEG_HALF, F32_NEG_HALF, F32_ZERO, F32_ZERO, F32_ZERO, F32_ONE, F32_ZERO, F32_ZERO,
        F32_NEG_HALF, F32_HALF, F32_ZERO, F32_ONE, F32_ONE, F32_ZERO, F32_ZERO, F32_ONE,
    ]
}

/// The two triangles of the quad, as indices into its vertices.
pub open spec fn quad_indices() -> Seq<u32> {
    seq![0, 1, 3, 1, 2, 3]
}

/// The quad's vertex data, one word per float.
pub fn quad_vertex_words() -> (words: Vec<u32>)
    ensures
        words@ == quad_vertices(),
        words@.len() == QUAD_VERTEX_COUNT * FLOATS_PER_VERTEX,
{
    let words = vec![
        F32_HALF, F32_HALF, F32_ZERO, F32_ONE, F32_ZERO, F32_ZERO, F32_ONE, F32_ONE,
        F32_HALF, F32_NEG_HALF, F32_ZERO, F32_ZERO, F32_ONE, F32_ZERO, F32_ONE, F32_ZERO,
        F32_NEG_HALF, F32_NEG_HALF, F32_ZERO, F32_ZERO, F32_ZERO, F32_ONE, F32_ZERO, F32_ZERO,
        F32_NEG_HALF, F32_HALF, F32_ZERO, F32_ONE, F32_ONE, F32_ZERO, F32_ZERO, F32_ONE,
    ];
    words
}

/// The quad's element indices. Each one names a vertex of the quad.
pub fn quad_index_words() -> (indices: Vec<u32>)
    ensures
        indices@ == quad_indices(),
        indices@.len() == 6,
        forall|i: int| 0 <= i < indices@.len() ==> indices@[i] < QUAD_VERTEX_COUNT,
{
    let indices = vec![0u32, 1, 3, 1, 2, 3];
    indices
}

/// Size in bytes of `count` consecutive floats.
fn float_bytes(count: i32) -> (bytes: i32)
    requires
        0 <= count <= 0x1FFF_FFFF,
    ensures
        bytes == count * BYTES_PER_FLOAT,
{
    count * BYTES_PER_FLOAT
}

/// The layout calls for the quad. Every pointer among them reads inside one
/// vertex.
pub fn quad_layout_steps() -> (steps: Vec<LayoutStep>)
    ensures
        steps@ == quad_layout(),
        forall|i: int| 0 <= i < steps@.len() ==> (#[trigger] steps@[i]).within_vertex(),
{
    let stride = float_bytes(8);
    let steps = vec![
        LayoutStep::Pointer { index: 0, components: 3, stride, offset: float_bytes(3) },
        LayoutStep::Enable { index: 1 },
        LayoutStep::Pointer { index: 1, components: 3, stride, offset: float_bytes(3) },
        LayoutStep::Enable { index: 1 },
        LayoutStep::Pointer { index: 2, components: 2, stride, offset: float_bytes(2) },
        LayoutStep::Enable { index: 2 },
    ];
    steps
}

/// Everything the GPU is given to draw a shape: the two buffers' bytes, the
/// layout calls and the number of indices to draw.
pub struct Mesh {
    pub vertex_bytes: Vec<u8>,
    pub index_bytes: Vec<u8>,
    pub layout: Vec<LayoutStep>,
    pub index_count: i32,
}

impl Mesh {
    /// The mesh is the quad: its buffers are the images of the quad's vertices
    /// and indices, its layout is the quad's, and it draws all six indices.
    pub open spec fn is_quad(&self) -> bool {
        &&& is_native_image(quad_vertices(), self.vertex_bytes@)
        &&& is_native_image(quad_indices(), self.index_bytes@)
        &&& self.layout@ == quad_layout()
        &&& self.index_count == quad_indices().len()
    }
}

/// Builds the quad.
pub fn quad_mesh() -> (mesh: Mesh)
    ensures
        mesh.is_quad(),
        mesh.vertex_bytes@.len() == QUAD_VERTEX_COUNT * VERTEX_STRIDE,
        mesh.index_bytes@.len() == 4 * mesh.index_count,
        mesh.index_count == 6,
{
    let vertices = quad_vertex_words();
    let indices = quad_index_words();
    let index_count = indices.len() as i32;
    Mesh {
        vertex_bytes: native_image(vertices.as_slice()),
        index_bytes: native_image(indices.as_slice()),
        layout: quad_layout_steps(),
        index_count,
    }
}

} // verus!
