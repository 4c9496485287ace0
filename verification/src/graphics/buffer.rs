//! The bytes of vertex and index buffers.

use vstd::prelude::*;

use crate::graphics::model::{vertex_attributes, vertex_stride, GpuMesh, Vertex};

verus! {

/// Byte `j` of a 32-bit word, counted from the least significant.
pub open spec fn word_byte(w: u32, j: int) -> u8 {
    if j == 0 {
        (w % 256) as u8
    } else if j == 1 {
        (w / 256 % 256) as u8
    } else if j == 2 {
        (w / 65536 % 256) as u8
    } else {
        (w / 16777216) as u8
    }
}

/// Which byte of a word stands at place `j` of its four bytes in memory.
pub open spec fn byte_at(j: int, little_endian: bool) -> int {
    if little_endian {
        j
    } else {
        3 - j
    }
}

/// The bytes of a list of words in memory, four per word, in the given byte
/// order.
pub open spec fn words_bytes(words: Seq<u32>, little_endian: bool) -> Seq<u8> {
    Seq::new(
        4 * words.len(),
        |k: int| word_byte(words[k / 4], byte_at(k % 4, little_endian)),
    )
}

/// Word `c` of a vertex's eight: three of position, three of normal, two of
/// texture coordinate.
pub open spec fn vertex_word(v: Vertex, c: int) -> u32 {
    if c < 3 {
        v.pos@[c]
    } else if c < 6 {
        v.nrm@[c - 3]
    } else {
        v.uv@[c - 6]
    }
}

/// The words of a list of vertices, eight per vertex.
pub open spec fn vertices_words(vertices: Seq<Vertex>) -> Seq<u32> {
    Seq::new(8 * vertices.len(), |k: int| vertex_word(vertices[k / 8], k % 8))
}

/// `bytes` are the words as they lie in memory, in one of the two byte
/// orders.
pub open spec fn is_memory_of(bytes: Seq<u8>, words: Seq<u32>) -> bool {
    bytes == words_bytes(words, true) || bytes == words_bytes(words, false)
}

/// `bytemuck::cast_slice` from `u32` to `u8`, copied into a vector. The
/// crate reinterprets the same memory as bytes, four for each word, which it
/// can always do for this pair of types; the bytes of every word are thus in
/// the machine's byte order, little-endian or big-endian.
#[verifier::external_body]
fn cast_words(words: &Vec<u32>) -> (bytes: Vec<u8>)
    ensures
        is_memory_of(bytes@, words@),
{
    bytemuck::cast_slice::<u32, u8>(words).to_vec()
}

/// The words of the vertices in buffer order.
pub fn pack_vertices(vertices: &Vec<Vertex>) -> (words: Vec<u32>)
    ensures
        words@ == vertices_words(vertices@),
{
    let mut words: Vec<u32> = Vec::new();
    let mut i: usize = 0;
    while i < vertices.len()
        invariant
            i <= vertices@.len(),
            words@.len() == 8 * i,
            forall|k: int| 0 <= k < words@.len() ==> words@[k] == vertices_words(vertices@)[k],
        decreases vertices@.len() - i,
    {
        let v = vertices[i];
        words.push(v.pos[0]);
        words.push(v.pos[1]);
        words.push(v.pos[2]);
        words.push(v.nrm[0]);
        words.push(v.nrm[1]);
        words.push(v.nrm[2]);
        words.push(v.uv[0]);
        words.push(v.uv[1]);
        i += 1;
    }
    assert(words@ =~= vertices_words(vertices@));
    words
}

impl GpuMesh {
    /// The contents of the mesh's vertex buffer: its vertices one after
    /// another, thirty-two bytes each, in the machine's byte order.
    pub fn vertex_bytes(&self) -> (bytes: Vec<u8>)
        ensures
            is_memory_of(bytes@, vertices_words(self.vertices@)),
    {
        let words = pack_vertices(&self.vertices);
        cast_words(&words)
    }

    /// The contents of the mesh's index buffer: its indices one after
    /// another, four bytes each, in the machine's byte order.
    pub fn index_bytes(&self) -> (bytes: Vec<u8>)
        ensures
            is_memory_of(bytes@, self.indices@),
    {
        cast_words(&self.indices)
    }
}

/// A vertex buffer agrees with the vertex layout: vertex `i` starts at `i`
/// times the stride, and component `c` of each attribute lies four bytes
/// after the one before, from the attribute's offset on.
pub proof fn lemma_vertex_bytes_follow_layout(
    vertices: Seq<Vertex>,
    little_endian: bool,
    i: int,
    c: int,
    j: int,
)
    requires
        0 <= i < vertices.len(),
        0 <= j < 4,
    ensures
        ({
            let bytes = words_bytes(vertices_words(vertices), little_endian);
            let base = i * vertex_stride();
            let place = byte_at(j, little_endian);
            &&& bytes.len() == vertices.len() * vertex_stride()
            &&& 0 <= c < 3 ==> bytes[base + vertex_attributes()[0].offset + 4 * c + j]
                == word_byte(vertices[i].pos@[c], place)
            &&& 0 <= c < 3 ==> bytes[base + vertex_attributes()[1].offset + 4 * c + j]
                == word_byte(vertices[i].nrm@[c], place)
            &&& 0 <= c < 2 ==> bytes[base + vertex_attributes()[2].offset + 4 * c + j]
                == word_byte(vertices[i].uv@[c], place)
        }),
{
    let words = vertices_words(vertices);
    let bytes = words_bytes(words, little_endian);
    if 0 <= c < 3 {
        let k = 32 * i + 4 * c + j;
        assert(k / 4 == 8 * i + c && k % 4 == j);
        assert((8 * i + c) / 8 == i && (8 * i + c) % 8 == c);
        assert(bytes[k] == word_byte(words[8 * i + c], byte_at(j, little_endian)));
        let k = 32 * i + 12 + 4 * c + j;
        assert(k / 4 == 8 * i + 3 + c && k % 4 == j);
        assert((8 * i + 3 + c) / 8 == i && (8 * i + 3 + c) % 8 == 3 + c);
        assert(bytes[k] == word_byte(words[8 * i + 3 + c], byte_at(j, little_endian)));
    }
    if 0 <= c < 2 {
        let k = 32 * i + 24 + 4 * c + j;
        assert(k / 4 == 8 * i + 6 + c && k % 4 == j);
        assert((8 * i + 6 + c) / 8 == i && (8 * i + 6 + c) % 8 == 6 + c);
        assert(bytes[k] == word_byte(words[8 * i + 6 + c], byte_at(j, little_endian)));
    }
}

/// The four bytes of a word determine it: nothing is lost on the way into a
/// buffer.
pub proof fn lemma_word_from_bytes(w: u32)
    ensures
        w == word_byte(w, 0) + 256 * word_byte(w, 1) + 65536 * word_byte(w, 2) + 16777216
            * word_byte(w, 3),
{
}

} // verus!
