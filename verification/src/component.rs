//! The instance collection: grid enumeration, batch generation, the encoded
//! buffer, and the component that bundles them.
//!
//! A grid of side `n` yields `n * n` cells in row-major order: the cell at
//! sequence index `z * n + x` has coordinates `(x, z)`, with `z` the outer
//! (row) index. That order is a contract: the encoded buffer stores the
//! instances' matrices in the same order, and the consuming vertex stream
//! indexes them by it.

use vstd::arithmetic::div_mod::lemma_fundamental_div_mod_converse;
use vstd::arithmetic::mul::lemma_mul_inequality;
use vstd::prelude::*;

use crate::fbits::F32_POS_ZERO_BITS;
use crate::fbits::push_word_le;
use crate::raw::Mat3Bits;
use crate::raw::lemma_bytes_of_words_len;
use crate::raw::lemma_bytes_of_words_snoc;
use crate::raw::spec_bytes_of_words;
use crate::raw::spec_raw_words;
use crate::transform::Instance;
use crate::transform::QuatBits;
use crate::transform::Vec3Bits;
use crate::transform::spec_rotation_for;

verus! {

/// The default grid preset's side length.
pub const DEFAULT_INSTANCES_PER_ROW: u32 = 10;

/// Bit pattern of binary32 `5.0`: half of `DEFAULT_INSTANCES_PER_ROW`, the
/// displacement component that centers the default grid on the origin.
pub const F32_HALF_DEFAULT_ROW_BITS: u32 = 0x40a0_0000;

/// Displacement of the single-instance preset: the zero vector.
pub open spec fn spec_single_instance_displacement() -> Vec3Bits {
    Vec3Bits { x: F32_POS_ZERO_BITS, y: F32_POS_ZERO_BITS, z: F32_POS_ZERO_BITS }
}

/// Builds the single-instance preset's displacement.
pub fn single_instance_displacement() -> (v: Vec3Bits)
    ensures
        v == spec_single_instance_displacement(),
{
    Vec3Bits { x: F32_POS_ZERO_BITS, y: F32_POS_ZERO_BITS, z: F32_POS_ZERO_BITS }
}

/// Displacement of the default grid preset: half the row length on the x
/// and z axes, so the grid is centered on the origin.
pub open spec fn spec_default_grid_displacement() -> Vec3Bits {
    Vec3Bits {
        x: F32_HALF_DEFAULT_ROW_BITS,
        y: F32_POS_ZERO_BITS,
        z: F32_HALF_DEFAULT_ROW_BITS,
    }
}

/// Builds the default grid preset's displacement.
pub fn default_grid_displacement() -> (v: Vec3Bits)
    ensures
        v == spec_default_grid_displacement(),
{
    Vec3Bits {
        x: F32_HALF_DEFAULT_ROW_BITS,
        y: F32_POS_ZERO_BITS,
        z: F32_HALF_DEFAULT_ROW_BITS,
    }
}

/// One cell of the square grid: `x` is the inner (column) index, `z` the
/// outer (row) index.
#[derive(Clone, Copy, Debug, PartialEq, Eq, Structural)]
pub struct GridCell {
    pub x: u32,
    pub z: u32,
}

/// The row-major enumeration of an `n` by `n` grid: index `i` holds the
/// cell `(i % n, i / n)`.
pub open spec fn spec_grid_cells(n: u32) -> Seq<GridCell> {
    Seq::new((n * n) as nat, |i: int| GridCell { x: (i % (n as int)) as u32, z: (i / (n as int)) as u32 })
}

/// Enumerates the cells of an `n` by `n` grid in row-major order: `z` runs
/// in the outer loop, `x` in the inner one.
pub fn grid_cells(n: u32) -> (v: Vec<GridCell>)
    requires
        n * n <= usize::MAX,
    ensures
        v@ == spec_grid_cells(n),
{
    let mut v: Vec<GridCell> = Vec::new();
    let mut z: u32 = 0;
    while z < n
        invariant
            z <= n,
            n * n <= usize::MAX,
            v@.len() == z * n,
            forall|i: int| 0 <= i < v@.len() ==> v@[i] == spec_grid_cells(n)[i],
        decreases n - z,
    {
        let mut x: u32 = 0;
        while x < n
            invariant
                z < n,
                x <= n,
                n * n <= usize::MAX,
                v@.len() == z * n + x,
                forall|i: int| 0 <= i < v@.len() ==> v@[i] == spec_grid_cells(n)[i],
            decreases n - x,
        {
            proof {
                lemma_mul_inequality(z as int + 1, n as int, n as int);
                assert((z as int + 1) * (n as int) == z as int * (n as int) + n as int)
                    by (nonlinear_arith);
                lemma_fundamental_div_mod_converse(
                    z as int * n as int + x as int,
                    n as int,
                    z as int,
                    x as int,
                );
            }
            v.push(GridCell { x, z });
            x = x + 1;
        }
        proof {
            lemma_mul_inequality(z as int + 1, n as int, n as int);
            assert((z + 1) * n == z * n + n) by (nonlinear_arith);
        }
        z = z + 1;
    }
    proof {
        assert(v@ =~= spec_grid_cells(n));
    }
    v
}

/// The instances generated from per-cell positions and candidate rotations:
/// element `i` pairs `positions[i]` with the rotation the degenerate-zero
/// policy picks for it.
pub open spec fn spec_instances(positions: Seq<Vec3Bits>, candidates: Seq<QuatBits>) -> Seq<Instance> {
    Seq::new(
        positions.len(),
        |i: int| Instance {
            position: positions[i],
            rotation: spec_rotation_for(positions[i], candidates[i]),
        },
    )
}

/// The column-major words of every instance's encoded matrix, in instance
/// order.
pub open spec fn spec_buffer_words(instances: Seq<Instance>, rotations: Seq<Mat3Bits>) -> Seq<u32>
    decreases instances.len(),
{
    if instances.len() == 0 {
        Seq::empty()
    } else {
        spec_raw_words(instances[0].position, rotations[0])
            + spec_buffer_words(instances.drop_first(), rotations.drop_first())
    }
}

/// The encoded byte buffer: the byte stream of every instance's words, in
/// instance order.
pub open spec fn spec_buffer_bytes(instances: Seq<Instance>, rotations: Seq<Mat3Bits>) -> Seq<u8> {
    spec_bytes_of_words(spec_buffer_words(instances, rotations))
}

/// Appending one instance appends its 16 words.
pub proof fn lemma_buffer_words_snoc(
    instances: Seq<Instance>,
    rotations: Seq<Mat3Bits>,
    inst: Instance,
    rot: Mat3Bits,
)
    requires
        instances.len() == rotations.len(),
    ensures
        spec_buffer_words(instances.push(inst), rotations.push(rot))
            == spec_buffer_words(instances, rotations) + spec_raw_words(inst.position, rot),
    decreases instances.len(),
{
    if instances.len() == 0 {
        reveal_with_fuel(spec_buffer_words, 2);
        assert(instances.push(inst).drop_first() =~= Seq::<Instance>::empty());
        assert(rotations.push(rot).drop_first() =~= Seq::<Mat3Bits>::empty());
        assert(spec_buffer_words(instances.push(inst), rotations.push(rot))
            =~= spec_buffer_words(instances, rotations) + spec_raw_words(inst.position, rot));
    } else {
        assert(instances.push(inst).drop_first() =~= instances.drop_first().push(inst));
        assert(rotations.push(rot).drop_first() =~= rotations.drop_first().push(rot));
        lemma_buffer_words_snoc(instances.drop_first(), rotations.drop_first(), inst, rot);
        assert(spec_buffer_words(instances.push(inst), rotations.push(rot))
            =~= spec_buffer_words(instances, rotations) + spec_raw_words(inst.position, rot));
    }
}

/// The set of generated instances, the displacement they were generated
/// with, and the encoded buffer that a device upload would consume.
pub struct InstanceComponent {
    pub num_instances_per_row: u32,
    pub instance_displacement: Vec3Bits,
    pub instances: Vec<Instance>,
    pub raw_data: Vec<u8>,
}

impl InstanceComponent {
    /// The component always holds a full square grid of instances, and the
    /// buffer always holds 64 bytes for each of them.
    pub open spec fn wf(self) -> bool {
        &&& self.instances@.len() == self.num_instances_per_row * self.num_instances_per_row
        &&& self.raw_data@.len() == 64 * self.instances@.len()
    }

    /// Pairs each generated position with the rotation the degenerate-zero
    /// policy picks for it, in position order.
    pub fn create_instances(
        positions: &Vec<Vec3Bits>,
        candidate_rotations: &Vec<QuatBits>,
    ) -> (v: Vec<Instance>)
        requires
            positions@.len() == candidate_rotations@.len(),
        ensures
            v@ == spec_instances(positions@, candidate_rotations@),
    {
        let mut v: Vec<Instance> = Vec::new();
        let mut i: usize = 0;
        while i < positions.len()
            invariant
                positions@.len() == candidate_rotations@.len(),
                i <= positions@.len(),
                v@.len() == i,
                forall|j: int|
                    0 <= j < i ==> v@[j] == spec_instances(positions@, candidate_rotations@)[j],
            decreases positions@.len() - i,
        {
            let inst = Instance::new(positions[i], candidate_rotations[i]);
            v.push(inst);
            i = i + 1;
        }
        proof {
            assert(v@ =~= spec_instances(positions@, candidate_rotations@));
        }
        v
    }

    /// Encodes every instance and concatenates the results: instance `i`'s
    /// 64 bytes start at offset `64 * i`, in instance order.
    pub fn create_instance_buffer(
        instances: &Vec<Instance>,
        rotations: &Vec<Mat3Bits>,
    ) -> (b: Vec<u8>)
        requires
            instances@.len() == rotations@.len(),
        ensures
            b@ == spec_buffer_bytes(instances@, rotations@),
            b@.len() == 64 * instances@.len(),
    {
        let mut words: Vec<u32> = Vec::new();
        let mut i: usize = 0;
        while i < instances.len()
            invariant
                instances@.len() == rotations@.len(),
                i <= instances@.len(),
                words@ == spec_buffer_words(
                    instances@.take(i as int),
                    rotations@.take(i as int),
                ),
            decreases instances@.len() - i,
        {
            let rotation = rotations[i];
            let mut raw = instances[i].to_raw(&rotation);
            proof {
                lemma_buffer_words_snoc(
                    instances@.take(i as int),
                    rotations@.take(i as int),
                    instances@[i as int],
                    rotations@[i as int],
                );
                assert(instances@.take(i as int).push(instances@[i as int])
                    =~= instances@.take(i + 1));
                assert(rotations@.take(i as int).push(rotations@[i as int])
                    =~= rotations@.take(i + 1));
            }
            words.append(&mut raw.model);
            i = i + 1;
        }
        proof {
            assert(instances@.take(instances@.len() as int) =~= instances@);
            assert(rotations@.take(rotations@.len() as int) =~= rotations@);
            lemma_buffer_words_len(instances@, rotations@);
            lemma_bytes_of_words_len(spec_buffer_words(instances@, rotations@));
        }
        let mut b: Vec<u8> = Vec::new();
        let mut j: usize = 0;
        while j < words.len()
            invariant
                j <= words@.len(),
                b@ == spec_bytes_of_words(words@.take(j as int)),
            decreases words@.len() - j,
        {
            let w: u32 = words[j];
            push_word_le(&mut b, w);
            proof {
                lemma_bytes_of_words_snoc(words@.take(j as int), w);
                assert(words@.take(j as int).push(w) =~= words@.take(j + 1));
            }
            j = j + 1;
        }
        proof {
            assert(words@.take(words@.len() as int) =~= words@);
        }
        b
    }

    /// Bundles a generated instance set with its displacement and its
    /// encoded buffer.
    pub fn new(
        num_instances_per_row: u32,
        instance_displacement: Vec3Bits,
        instances: Vec<Instance>,
        rotations: &Vec<Mat3Bits>,
    ) -> (c: InstanceComponent)
        requires
            instances@.len() == num_instances_per_row * num_instances_per_row,
            instances@.len() == rotations@.len(),
        ensures
            c.wf(),
            c.num_instances_per_row == num_instances_per_row,
            c.instance_displacement == instance_displacement,
            c.instances@ == instances@,
            c.raw_data@ == spec_buffer_bytes(instances@, rotations@),
    {
        let raw_data = Self::create_instance_buffer(&instances, rotations);
        InstanceComponent { num_instances_per_row, instance_displacement, instances, raw_data }
    }

    /// The empty preset: no instances, zero displacement, empty buffer.
    pub fn default() -> (c: InstanceComponent)
        ensures
            c.wf(),
            c.num_instances_per_row == 0,
            c.instance_displacement == spec_single_instance_displacement(),
            c.instances@ == Seq::<Instance>::empty(),
            c.raw_data@ == Seq::<u8>::empty(),
    {
        let instances: Vec<Instance> = Vec::new();
        let rotations: Vec<Mat3Bits> = Vec::new();
        let c = Self::new(0, single_instance_displacement(), instances, &rotations);
        proof {
            assert(c.instances@ =~= Seq::<Instance>::empty());
            assert(c.raw_data@ =~= Seq::<u8>::empty());
        }
        c
    }
}

/// The words of `n` instances number `16 * n`.
pub proof fn lemma_buffer_words_len(instances: Seq<Instance>, rotations: Seq<Mat3Bits>)
    ensures
        spec_buffer_words(instances, rotations).len() == 16 * instances.len(),
    decreases instances.len(),
{
    if instances.len() > 0 {
        lemma_buffer_words_len(instances.drop_first(), rotations.drop_first());
    }
}

} // verus!
