use cgmath::Deg;
use cgmath::InnerSpace;
use cgmath::Matrix4;
use cgmath::Quaternion;
use cgmath::Rotation3;
use cgmath::Vector3;

use grid_instances::component::InstanceComponent;
use grid_instances::raw::InstanceRaw;
use grid_instances::raw::Mat3Bits;
use grid_instances::raw::encode_all;
use grid_instances::transform::Instance;
use grid_instances::transform::QuatBits;
use grid_instances::transform::Vec3Bits;

fn vec3_bits(v: Vector3<f32>) -> Vec3Bits {
    Vec3Bits { x: v.x.to_bits(), y: v.y.to_bits(), z: v.z.to_bits() }
}

fn quat_bits(q: Quaternion<f32>) -> QuatBits {
    QuatBits {
        x: q.v.x.to_bits(),
        y: q.v.y.to_bits(),
        z: q.v.z.to_bits(),
        w: q.s.to_bits(),
    }
}

fn composed(p: Vector3<f32>, q: Quaternion<f32>) -> Matrix4<f32> {
    Matrix4::from_translation(p) * Matrix4::from(q)
}

fn rotation_block(m: &Matrix4<f32>) -> Mat3Bits {
    Mat3Bits {
        c0r0: m.x.x.to_bits(),
        c0r1: m.x.y.to_bits(),
        c0r2: m.x.z.to_bits(),
        c1r0: m.y.x.to_bits(),
        c1r1: m.y.y.to_bits(),
        c1r2: m.y.z.to_bits(),
        c2r0: m.z.x.to_bits(),
        c2r1: m.z.y.to_bits(),
        c2r2: m.z.z.to_bits(),
    }
}

fn matrix_words(m: &Matrix4<f32>) -> Vec<u32> {
    let cols: [[f32; 4]; 4] = (*m).into();
    let mut words: Vec<u32> = Vec::new();
    for col in cols.iter() {
        for value in col.iter() {
            words.push(value.to_bits());
        }
    }
    words
}

#[test]
fn raw_matrix_matches_composed_product() {
    let cases = [
        Vector3::new(1.0f32, 0.0, 1.0),
        Vector3::new(-5.0f32, 0.0, -5.0),
        Vector3::new(-5.0f32, 0.0, 0.0),
        Vector3::new(0.0f32, 0.0, 3.0),
    ];
    for p in cases.iter() {
        let q = Quaternion::from_axis_angle(p.normalize(), Deg(45.0f32));
        let m = composed(*p, q);
        let inst = Instance::new(vec3_bits(*p), quat_bits(q));
        let raw = inst.to_raw(&rotation_block(&m));
        assert_eq!(raw.model, matrix_words(&m));
    }
}

#[test]
fn translation_round_trip() {
    let p = Vector3::new(2.0f32, 0.0, -3.0);
    let q = Quaternion::from_axis_angle(p.normalize(), Deg(45.0f32));
    let m = composed(p, q);
    let inst = Instance::new(vec3_bits(p), quat_bits(q));
    let raw = inst.to_raw(&rotation_block(&m));
    assert_eq!(raw.translation(), vec3_bits(p));
}

#[test]
fn buffer_length_and_bytes() {
    let mut instances: Vec<Instance> = Vec::new();
    let mut rotations: Vec<Mat3Bits> = Vec::new();
    let mut expected: Vec<u8> = Vec::new();
    for i in 0..3u32 {
        let p = Vector3::new(i as f32, 0.0, 1.0);
        let q = Quaternion::from_axis_angle(p.normalize(), Deg(45.0f32));
        let m = composed(p, q);
        instances.push(Instance::new(vec3_bits(p), quat_bits(q)));
        rotations.push(rotation_block(&m));
        let cols: [[f32; 4]; 4] = m.into();
        for col in cols.iter() {
            expected.extend_from_slice(bytemuck::cast_slice::<f32, u8>(col));
        }
    }
    let buffer = InstanceComponent::create_instance_buffer(&instances, &rotations);
    assert_eq!(buffer.len(), 16 * 4 * instances.len());
    // Byte-for-byte the same stream the in-memory float matrices hold.
    assert_eq!(buffer, expected);
    // Each instance's own 64 bytes sit at its slot, in sequence order.
    let mut concatenated: Vec<u8> = Vec::new();
    for (inst, rot) in instances.iter().zip(rotations.iter()) {
        inst.to_raw(rot).write_bytes(&mut concatenated);
    }
    assert_eq!(concatenated, buffer);
    // Batch encoding is one-to-one and order-preserving.
    let raws = encode_all(&instances, &rotations);
    assert_eq!(raws.len(), instances.len());
    for (raw, inst) in raws.iter().zip(instances.iter()) {
        assert_eq!(raw.translation(), inst.position);
    }
    assert_eq!(encode_all(&Vec::new(), &Vec::new()).len(), 0);
}

#[test]
fn layout_desc() {
    let layout = InstanceRaw::desc();
    assert_eq!(layout.array_stride, 64);
    assert!(layout.step_per_instance);
    assert_eq!(layout.attributes.len(), 4);
    for (i, attribute) in layout.attributes.iter().enumerate() {
        assert_eq!(attribute.offset as usize, 16 * i);
        assert_eq!(attribute.shader_location as usize, 5 + i);
    }
}
