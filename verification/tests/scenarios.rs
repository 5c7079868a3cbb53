use cgmath::Deg;
use cgmath::InnerSpace;
use cgmath::Matrix4;
use cgmath::Quaternion;
use cgmath::Rotation3;
use cgmath::Vector3;
use cgmath::Zero;

use grid_instances::component::DEFAULT_INSTANCES_PER_ROW;
use grid_instances::component::InstanceComponent;
use grid_instances::component::default_grid_displacement;
use grid_instances::component::grid_cells;
use grid_instances::component::single_instance_displacement;
use grid_instances::raw::Mat3Bits;
use grid_instances::transform::Instance;
use grid_instances::transform::QuatBits;
use grid_instances::transform::Vec3Bits;
use grid_instances::transform::identity_rotation;

fn vec3_bits(v: Vector3<f32>) -> Vec3Bits {
    Vec3Bits { x: v.x.to_bits(), y: v.y.to_bits(), z: v.z.to_bits() }
}

fn quat_bits(q: Quaternion<f32>) -> QuatBits {
    QuatBits {
        x: q.v.x.to_bits(),
        y: q.v.y.to_bits(),
        z: q.v.z.to_bits(),
        w: q.s.to_bits(),
    }
}

fn candidate_for(p: Vector3<f32>) -> Quaternion<f32> {
    if p.is_zero() {
        Quaternion::from_axis_angle(Vector3::unit_z(), Deg(0.0))
    } else {
        Quaternion::from_axis_angle(p.normalize(), Deg(45.0))
    }
}

fn generate(n: u32, displacement: Vector3<f32>) -> Vec<Instance> {
    let cells = grid_cells(n);
    let mut positions: Vec<Vec3Bits> = Vec::new();
    let mut candidates: Vec<QuatBits> = Vec::new();
    for cell in &cells {
        let p = Vector3::new(cell.x as f32, 0.0, cell.z as f32) - displacement;
        positions.push(vec3_bits(p));
        candidates.push(quat_bits(candidate_for(p)));
    }
    InstanceComponent::create_instances(&positions, &candidates)
}

fn rotation_block_of(inst: &Instance) -> Mat3Bits {
    let q = Quaternion::new(
        f32::from_bits(inst.rotation.w),
        f32::from_bits(inst.rotation.x),
        f32::from_bits(inst.rotation.y),
        f32::from_bits(inst.rotation.z),
    );
    let p = Vector3::new(
        f32::from_bits(inst.position.x),
        f32::from_bits(inst.position.y),
        f32::from_bits(inst.position.z),
    );
    let m = Matrix4::from_translation(p) * Matrix4::from(q);
    Mat3Bits {
        c0r0: m.x.x.to_bits(),
        c0r1: m.x.y.to_bits(),
        c0r2: m.x.z.to_bits(),
        c1r0: m.y.x.to_bits(),
        c1r1: m.y.y.to_bits(),
        c1r2: m.y.z.to_bits(),
        c2r0: m.z.x.to_bits(),
        c2r1: m.z.y.to_bits(),
        c2r2: m.z.z.to_bits(),
    }
}

fn encode_buffer(instances: &Vec<Instance>) -> Vec<u8> {
    let mut rotations: Vec<Mat3Bits> = Vec::new();
    for inst in instances {
        rotations.push(rotation_block_of(inst));
    }
    InstanceComponent::create_instance_buffer(instances, &rotations)
}

#[test]
fn two_by_two_grid() {
    let instances = generate(2, Vector3::zero());
    assert_eq!(instances.len(), 4);
    let expected_positions = [
        Vector3::new(0.0f32, 0.0, 0.0),
        Vector3::new(1.0f32, 0.0, 0.0),
        Vector3::new(0.0f32, 0.0, 1.0),
        Vector3::new(1.0f32, 0.0, 1.0),
    ];
    for (inst, p) in instances.iter().zip(expected_positions.iter()) {
        assert_eq!(inst.position, vec3_bits(*p));
    }
    // The origin instance is degenerate and gets the identity rotation.
    assert_eq!(instances[0].rotation, identity_rotation());
    // The other three carry the 45-degree turn about their normalized
    // positions.
    for (inst, p) in instances.iter().zip(expected_positions.iter()).skip(1) {
        let expected = Quaternion::from_axis_angle(p.normalize(), Deg(45.0f32));
        assert_eq!(inst.rotation, quat_bits(expected));
    }
}

#[test]
fn single_instance_at_origin() {
    let instances = generate(1, Vector3::zero());
    assert_eq!(instances.len(), 1);
    assert_eq!(instances[0].position, Vec3Bits { x: 0, y: 0, z: 0 });
    assert_eq!(instances[0].rotation, identity_rotation());
    let buffer = encode_buffer(&instances);
    assert_eq!(buffer.len(), 64);
    // The single encoded matrix is exactly the identity matrix.
    let mut expected: Vec<u8> = Vec::new();
    let identity = [
        [1.0f32, 0.0, 0.0, 0.0],
        [0.0f32, 1.0, 0.0, 0.0],
        [0.0f32, 0.0, 1.0, 0.0],
        [0.0f32, 0.0, 0.0, 1.0],
    ];
    for col in identity.iter() {
        for value in col.iter() {
            expected.extend_from_slice(&value.to_bits().to_le_bytes());
        }
    }
    assert_eq!(buffer, expected);
}

#[test]
fn default_component_is_empty() {
    let component = InstanceComponent::default();
    assert_eq!(component.num_instances_per_row, 0);
    assert_eq!(component.instance_displacement, Vec3Bits { x: 0, y: 0, z: 0 });
    assert_eq!(component.instances.len(), 0);
    assert_eq!(component.raw_data.len(), 0);
}

#[test]
fn preset_displacements() {
    let zero = Vector3::<f32>::zero();
    assert_eq!(single_instance_displacement(), vec3_bits(zero));
    let half = DEFAULT_INSTANCES_PER_ROW as f32 * 0.5;
    assert_eq!(DEFAULT_INSTANCES_PER_ROW, 10);
    assert_eq!(default_grid_displacement(), vec3_bits(Vector3::new(half, 0.0, half)));
}

#[test]
fn default_grid_has_identity_at_center() {
    let displacement = Vector3::new(
        DEFAULT_INSTANCES_PER_ROW as f32 * 0.5,
        0.0,
        DEFAULT_INSTANCES_PER_ROW as f32 * 0.5,
    );
    let n = DEFAULT_INSTANCES_PER_ROW;
    let instances = generate(n, displacement);
    assert_eq!(instances.len(), 100);
    // The cell at (5, 5) sits exactly on the origin once displaced.
    let center = &instances[(5 * n + 5) as usize];
    assert_eq!(center.position, Vec3Bits { x: 0, y: 0, z: 0 });
    assert_eq!(center.rotation, identity_rotation());
    // Every other cell is off the origin and keeps a non-identity turn.
    for (i, inst) in instances.iter().enumerate() {
        if i != (5 * n + 5) as usize {
            assert_ne!(inst.rotation, identity_rotation());
        }
    }
    let buffer = encode_buffer(&instances);
    assert_eq!(buffer.len(), 64 * 100);
    // The full component bundles the same pieces unchanged.
    let mut rotations: Vec<Mat3Bits> = Vec::new();
    for inst in &instances {
        rotations.push(rotation_block_of(inst));
    }
    let component = InstanceComponent::new(
        n,
        vec3_bits(displacement),
        instances.clone(),
        &rotations,
    );
    assert_eq!(component.raw_data, buffer);
    assert_eq!(component.instances, instances);
}
