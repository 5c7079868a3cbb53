//! The library's laws: properties that relate the generator, the rotation
//! policy and the encoder, stated over the spec functions that the
//! executable functions' contracts are written in.

use vstd::arithmetic::div_mod::lemma_fundamental_div_mod_converse;
use vstd::arithmetic::mul::lemma_mul_inequality;
use vstd::prelude::*;

use crate::component::GridCell;
use crate::component::lemma_buffer_words_len;
use crate::component::spec_buffer_bytes;
use crate::component::spec_buffer_words;
use crate::component::spec_grid_cells;
use crate::component::spec_instances;
use crate::fbits::le_bytes_of_word;
use crate::fbits::word_of_le_bytes;
use crate::raw::Mat3Bits;
use crate::raw::lemma_bytes_of_words_concat;
use crate::raw::lemma_bytes_of_words_len;
use crate::raw::spec_bytes_of_words;
use crate::raw::spec_raw_words;
use crate::raw::spec_translation_of;
use crate::transform::Instance;
use crate::transform::QuatBits;
use crate::transform::Vec3Bits;
use crate::transform::spec_identity_rotation;
use crate::transform::spec_is_zero_vec;
use crate::transform::spec_rotation_for;

verus! {

/// A grid of side zero generates no cells, no instances, and an empty
/// encoded buffer.
pub proof fn lemma_empty_generation()
    ensures
        spec_grid_cells(0) == Seq::<GridCell>::empty(),
        spec_instances(Seq::empty(), Seq::empty()) == Seq::<Instance>::empty(),
        spec_buffer_bytes(Seq::empty(), Seq::empty()) == Seq::<u8>::empty(),
{
    assert(spec_grid_cells(0) =~= Seq::<GridCell>::empty());
    assert(spec_instances(Seq::empty(), Seq::empty()) =~= Seq::<Instance>::empty());
    assert(spec_buffer_bytes(Seq::empty(), Seq::empty()) =~= Seq::<u8>::empty());
}

/// A grid of side `n` holds exactly `n * n` cells, enumerated row-major:
/// the cell at index `z * n + x` is `(x, z)`.
pub proof fn lemma_grid_row_major(n: u32, z: u32, x: u32)
    requires
        z < n,
        x < n,
    ensures
        spec_grid_cells(n).len() == n * n,
        0 <= z * n + x < n * n,
        spec_grid_cells(n)[z * n + x] == (GridCell { x: x, z: z }),
{
    lemma_mul_inequality(z as int + 1, n as int, n as int);
    assert((z as int + 1) * (n as int) == z as int * (n as int) + n as int) by (nonlinear_arith);
    lemma_fundamental_div_mod_converse(
        z as int * n as int + x as int,
        n as int,
        z as int,
        x as int,
    );
}

/// An instance whose position compares equal to the zero vector gets the
/// identity rotation, whatever candidate rotation was computed for it.
pub proof fn lemma_degenerate_rotation(position: Vec3Bits, candidate: QuatBits)
    requires
        spec_is_zero_vec(position),
    ensures
        spec_rotation_for(position, candidate) == spec_identity_rotation(),
{
}

/// An instance whose position is non-zero keeps the candidate rotation:
/// the fixed-angle turn about its normalized position that was computed
/// for it.
pub proof fn lemma_nonzero_rotation_kept(position: Vec3Bits, candidate: QuatBits)
    requires
        !spec_is_zero_vec(position),
    ensures
        spec_rotation_for(position, candidate) == candidate,
{
}

/// The byte layout loses nothing: writing a word as its four little-endian
/// bytes and reading them back yields the word.
pub proof fn lemma_word_bytes_round_trip(w: u32)
    ensures
        word_of_le_bytes(
            le_bytes_of_word(w)[0],
            le_bytes_of_word(w)[1],
            le_bytes_of_word(w)[2],
            le_bytes_of_word(w)[3],
        ) == w,
{
    assert(((w & 0xff) as u8 as u32 | (((w >> 8) & 0xff) as u8 as u32) << 8
        | (((w >> 16) & 0xff) as u8 as u32) << 16 | (((w >> 24) & 0xff) as u8 as u32) << 24) as u32
        == w) by (bit_vector);
}

/// Decomposing an encoded matrix recovers the translation it was built
/// from, bit for bit: the first three components of its last column are
/// the instance's position.
pub proof fn lemma_translation_round_trip(position: Vec3Bits, rotation: Mat3Bits)
    ensures
        spec_translation_of(spec_raw_words(position, rotation)) == position,
{
}

/// The encoded buffer of `n` instances holds exactly `16 * 4 * n` bytes.
pub proof fn lemma_buffer_size(instances: Seq<Instance>, rotations: Seq<Mat3Bits>)
    ensures
        spec_buffer_bytes(instances, rotations).len() == 64 * instances.len(),
{
    lemma_buffer_words_len(instances, rotations);
    lemma_bytes_of_words_len(spec_buffer_words(instances, rotations));
}

/// Sequence order maps one to one onto buffer-slot order: instance `i`'s
/// encoded matrix occupies exactly the 64 buffer bytes starting at offset
/// `64 * i`.
pub proof fn lemma_buffer_slot(instances: Seq<Instance>, rotations: Seq<Mat3Bits>, i: int)
    requires
        instances.len() == rotations.len(),
        0 <= i < instances.len(),
    ensures
        spec_buffer_bytes(instances, rotations).subrange(64 * i, 64 * i + 64)
            == spec_bytes_of_words(spec_raw_words(instances[i].position, rotations[i])),
    decreases i,
{
    lemma_buffer_size(instances, rotations);
    let head = spec_raw_words(instances[0].position, rotations[0]);
    let rest = spec_buffer_words(instances.drop_first(), rotations.drop_first());
    lemma_bytes_of_words_concat(head, rest);
    lemma_bytes_of_words_len(head);
    lemma_buffer_words_len(instances.drop_first(), rotations.drop_first());
    lemma_bytes_of_words_len(rest);
    if i == 0 {
        assert(spec_buffer_bytes(instances, rotations).subrange(0, 64)
            =~= spec_bytes_of_words(head));
    } else {
        lemma_buffer_slot(instances.drop_first(), rotations.drop_first(), i - 1);
        assert(spec_buffer_bytes(instances, rotations).subrange(64 * i, 64 * i + 64)
            =~= spec_bytes_of_words(rest).subrange(64 * (i - 1), 64 * (i - 1) + 64));
    }
}

/// Generation is a function of its inputs alone: the executable functions'
/// contracts pin each result to a spec function of the arguments, so any
/// two instance sequences generated from identical inputs are identical,
/// bit for bit.
pub proof fn lemma_generation_deterministic(
    positions: Seq<Vec3Bits>,
    candidates: Seq<QuatBits>,
    first: Seq<Instance>,
    second: Seq<Instance>,
)
    requires
        first == spec_instances(positions, candidates),
        second == spec_instances(positions, candidates),
    ensures
        first == second,
{
}

} // verus!
