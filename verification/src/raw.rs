//! Raw encoding of one instance: a 4x4 homogeneous transform matrix stored
//! as 16 contiguous 32-bit words in column-major order, plus the byte-level
//! layout of the word stream.
//!
//! The composed transform `translation(position) * rotation` places the 3x3
//! rotation block in the first three columns (each padded with a `+0.0`
//! fourth component) and `(position, 1.0)` in the last column. The encoder
//! assembles exactly that shape; the rotation block itself is a
//! floating-point product computed outside the library and handed in as bit
//! patterns.

use vstd::prelude::*;

use crate::fbits::F32_ONE_BITS;
use crate::fbits::F32_POS_ZERO_BITS;
use crate::fbits::le_bytes_of_word;
use crate::fbits::push_word_le;
use crate::transform::Instance;
use crate::transform::Vec3Bits;

verus! {

/// A 3x3 rotation-matrix block of binary32 scalars carried as bit patterns.
/// The field `cIrJ` holds column `I`, row `J`.
#[derive(Clone, Copy, Debug, PartialEq, Eq, Structural)]
pub struct Mat3Bits {
    pub c0r0: u32,
    pub c0r1: u32,
    pub c0r2: u32,
    pub c1r0: u32,
    pub c1r1: u32,
    pub c1r2: u32,
    pub c2r0: u32,
    pub c2r1: u32,
    pub c2r2: u32,
}

/// One encoded instance: the 16 words of a 4x4 matrix, column-major.
#[derive(Clone, Debug, PartialEq, Eq)]
pub struct InstanceRaw {
    pub model: Vec<u32>,
}

/// The 16 column-major words of `translation(position) * rotation`: three
/// rotation columns padded with `+0.0`, then `(position, 1.0)`.
pub open spec fn spec_raw_words(position: Vec3Bits, rotation: Mat3Bits) -> Seq<u32> {
    seq![
        rotation.c0r0,
        rotation.c0r1,
        rotation.c0r2,
        F32_POS_ZERO_BITS,
        rotation.c1r0,
        rotation.c1r1,
        rotation.c1r2,
        F32_POS_ZERO_BITS,
        rotation.c2r0,
        rotation.c2r1,
        rotation.c2r2,
        F32_POS_ZERO_BITS,
        position.x,
        position.y,
        position.z,
        F32_ONE_BITS,
    ]
}

/// The translation held by an encoded matrix: the first three components of
/// its last column.
pub open spec fn spec_translation_of(words: Seq<u32>) -> Vec3Bits
    recommends
        words.len() == 16,
{
    Vec3Bits { x: words[12], y: words[13], z: words[14] }
}

impl InstanceRaw {
    /// An encoded instance always holds exactly 16 words.
    pub open spec fn wf(self) -> bool {
        self.model@.len() == 16
    }

    /// Reads the translation back out of the encoded matrix.
    pub fn translation(&self) -> (v: Vec3Bits)
        requires
            self.wf(),
        ensures
            v == spec_translation_of(self.model@),
    {
        Vec3Bits { x: self.model[12], y: self.model[13], z: self.model[14] }
    }

    /// Appends the 64 bytes of this matrix to `out`: its 16 words in order,
    /// each as four little-endian bytes.
    pub fn write_bytes(&self, out: &mut Vec<u8>)
        requires
            self.wf(),
        ensures
            final(out)@ == old(out)@ + spec_bytes_of_words(self.model@),
    {
        let mut i: usize = 0;
        while i < self.model.len()
            invariant
                self.wf(),
                i <= self.model@.len(),
                out@ == old(out)@ + spec_bytes_of_words(self.model@.take(i as int)),
            decreases self.model@.len() - i,
        {
            let w: u32 = self.model[i];
            push_word_le(out, w);
            proof {
                lemma_bytes_of_words_snoc(self.model@.take(i as int), w);
                assert(self.model@.take(i as int).push(w) =~= self.model@.take(i + 1 as int));
            }
            i = i + 1;
        }
        proof {
            assert(self.model@.take(self.model@.len() as int) =~= self.model@);
        }
    }
}

impl Instance {
    /// Encodes this instance as the 4x4 matrix `translation * rotation`,
    /// given the bit patterns of its rotation's 3x3 matrix block.
    pub fn to_raw(&self, rotation: &Mat3Bits) -> (r: InstanceRaw)
        ensures
            r.wf(),
            r.model@ == spec_raw_words(self.position, *rotation),
    {
        let mut model: Vec<u32> = Vec::new();
        model.push(rotation.c0r0);
        model.push(rotation.c0r1);
        model.push(rotation.c0r2);
        model.push(F32_POS_ZERO_BITS);
        model.push(rotation.c1r0);
        model.push(rotation.c1r1);
        model.push(rotation.c1r2);
        model.push(F32_POS_ZERO_BITS);
        model.push(rotation.c2r0);
        model.push(rotation.c2r1);
        model.push(rotation.c2r2);
        model.push(F32_POS_ZERO_BITS);
        model.push(self.position.x);
        model.push(self.position.y);
        model.push(self.position.z);
        model.push(F32_ONE_BITS);
        assert(model@ =~= spec_raw_words(self.position, *rotation));
        InstanceRaw { model }
    }
}

/// Encodes every instance, one matrix per instance, order preserved one to
/// one with the input.
pub fn encode_all(instances: &Vec<Instance>, rotations: &Vec<Mat3Bits>) -> (out: Vec<InstanceRaw>)
    requires
        instances@.len() == rotations@.len(),
    ensures
        out@.len() == instances@.len(),
        forall|i: int|
            0 <= i < out@.len() ==> (#[trigger] out@[i]).model@ == spec_raw_words(
                instances@[i].position,
                rotations@[i],
            ),
{
    let mut out: Vec<InstanceRaw> = Vec::new();
    let mut i: usize = 0;
    while i < instances.len()
        invariant
            instances@.len() == rotations@.len(),
            i <= instances@.len(),
            out@.len() == i,
            forall|j: int|
                0 <= j < i ==> (#[trigger] out@[j]).model@ == spec_raw_words(
                    instances@[j].position,
                    rotations@[j],
                ),
        decreases instances@.len() - i,
    {
        let rotation = rotations[i];
        out.push(instances[i].to_raw(&rotation));
        i = i + 1;
    }
    out
}

/// One vertex attribute of the instance stream: a 4-component 32-bit float
/// slot at a byte offset within the stride.
#[derive(Clone, Copy, Debug, PartialEq, Eq, Structural)]
pub struct VertexAttributeDesc {
    pub offset: u32,
    pub shader_location: u32,
}

/// The vertex-buffer layout of the encoded stream, as plain values: the
/// per-instance stride, the stepping mode, and the four column attributes
/// the consuming stage reassembles a matrix from.
pub struct InstanceBufferLayout {
    pub array_stride: u32,
    pub step_per_instance: bool,
    pub attributes: Vec<VertexAttributeDesc>,
}

impl InstanceRaw {
    /// The layout contract of the encoded stream: one 64-byte stride per
    /// instance, advanced per instance (not per vertex), carrying four
    /// consecutive 16-byte columns at shader locations 5 through 8.
    pub fn desc() -> (l: InstanceBufferLayout)
        ensures
            l.array_stride == 64,
            l.step_per_instance,
            l.attributes@.len() == 4,
            forall|i: int| 0 <= i < 4 ==> (#[trigger] l.attributes@[i]).offset == 16 * i,
            forall|i: int| 0 <= i < 4 ==> (#[trigger] l.attributes@[i]).shader_location == 5 + i,
    {
        let mut attributes: Vec<VertexAttributeDesc> = Vec::new();
        attributes.push(VertexAttributeDesc { offset: 0, shader_location: 5 });
        attributes.push(VertexAttributeDesc { offset: 16, shader_location: 6 });
        attributes.push(VertexAttributeDesc { offset: 32, shader_location: 7 });
        attributes.push(VertexAttributeDesc { offset: 48, shader_location: 8 });
        InstanceBufferLayout { array_stride: 64, step_per_instance: true, attributes }
    }
}

/// The byte stream of a word sequence: each word as four little-endian
/// bytes, in word order.
pub open spec fn spec_bytes_of_words(words: Seq<u32>) -> Seq<u8>
    decreases words.len(),
{
    if words.len() == 0 {
        Seq::empty()
    } else {
        le_bytes_of_word(words[0]) + spec_bytes_of_words(words.drop_first())
    }
}

/// Appending one word to a sequence appends its four bytes to the stream.
pub proof fn lemma_bytes_of_words_snoc(words: Seq<u32>, w: u32)
    ensures
        spec_bytes_of_words(words.push(w)) == spec_bytes_of_words(words) + le_bytes_of_word(w),
    decreases words.len(),
{
    if words.len() == 0 {
        reveal_with_fuel(spec_bytes_of_words, 2);
        assert(words.push(w)[0] == w);
        assert(words.push(w).drop_first() =~= Seq::<u32>::empty());
        assert(spec_bytes_of_words(words.push(w)) =~= spec_bytes_of_words(words) + le_bytes_of_word(w));
    } else {
        assert(words.push(w).drop_first() =~= words.drop_first().push(w));
        lemma_bytes_of_words_snoc(words.drop_first(), w);
        assert(spec_bytes_of_words(words.push(w)) =~= spec_bytes_of_words(words) + le_bytes_of_word(w));
    }
}

/// The byte stream of a concatenation is the concatenation of the byte
/// streams.
pub proof fn lemma_bytes_of_words_concat(first: Seq<u32>, second: Seq<u32>)
    ensures
        spec_bytes_of_words(first + second)
            == spec_bytes_of_words(first) + spec_bytes_of_words(second),
    decreases first.len(),
{
    if first.len() == 0 {
        assert(first + second =~= second);
        assert(spec_bytes_of_words(first + second)
            =~= spec_bytes_of_words(first) + spec_bytes_of_words(second));
    } else {
        assert((first + second)[0] == first[0]);
        assert((first + second).drop_first() =~= first.drop_first() + second);
        lemma_bytes_of_words_concat(first.drop_first(), second);
        assert(spec_bytes_of_words(first + second)
            =~= spec_bytes_of_words(first) + spec_bytes_of_words(second));
    }
}

/// The byte stream of `n` words holds `4 * n` bytes.
pub proof fn lemma_bytes_of_words_len(words: Seq<u32>)
    ensures
        spec_bytes_of_words(words).len() == 4 * words.len(),
    decreases words.len(),
{
    if words.len() > 0 {
        lemma_bytes_of_words_len(words.drop_first());
    }
}

} // verus!
