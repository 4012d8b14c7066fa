use shader_canvas::binding::{
    BindGroupEntry, BindGroupLayoutDescriptor, BindGroupLayoutEntry, BindingResource,
    BindingType, BufferBindingType, BufferUsages, ShaderStages,
};
use shader_canvas::bytes::words_to_bytes;
use shader_canvas::surface::PhysicalSize;
use shader_canvas::uniform::camera::CameraUniform;
use shader_canvas::uniform::system::SystemUniform;
use shader_canvas::uniform::Uniform;

fn native(words: &[u32]) -> Vec<u8> {
    let mut bytes = Vec::new();
    for word in words {
        bytes.extend_from_slice(&word.to_ne_bytes());
    }
    bytes
}

#[test]
fn words_become_their_memory_image() {
    let words = [0x1122_3344u32, 0xAABB_CCDD, 7];
    let bytes = words_to_bytes(&words);
    assert_eq!(bytes.len(), 12);
    assert_eq!(bytes, native(&words));
    assert_ne!(bytes[0], bytes[3]);
}

#[test]
fn no_words_no_bytes() {
    assert_eq!(words_to_bytes(&[]), Vec::<u8>::new());
}

#[test]
fn system_uniform_is_byte_exact() {
    let t = 12.625f32;
    let uniform = SystemUniform::new(PhysicalSize::new(800, 600), t.to_bits());
    let bytes = uniform.bytes();
    assert_eq!(bytes.len(), 32);
    assert_eq!(f32::from_ne_bytes([bytes[0], bytes[1], bytes[2], bytes[3]]), t);
    assert_eq!(&bytes[4..16], &[0u8; 12]);
    assert_eq!(u32::from_ne_bytes([bytes[16], bytes[17], bytes[18], bytes[19]]), 800);
    assert_eq!(u32::from_ne_bytes([bytes[20], bytes[21], bytes[22], bytes[23]]), 600);
    assert_eq!(&bytes[24..32], &[0u8; 8]);
}

#[test]
fn system_uniform_words_and_update() {
    let mut uniform = SystemUniform::new(PhysicalSize::new(1024, 768), 1.0f32.to_bits());
    assert_eq!(uniform.words(), vec![0x3F80_0000, 0, 0, 0, 1024, 768, 0, 0]);
    uniform.update_system(PhysicalSize::new(640, 480), 2.0f32.to_bits());
    assert_eq!(uniform.time, 0x4000_0000);
    assert_eq!(uniform.resolution, [640, 480]);
    assert_eq!(uniform.words(), vec![0x4000_0000, 0, 0, 0, 640, 480, 0, 0]);
}

#[test]
fn camera_uniform_starts_as_identity() {
    let uniform = CameraUniform::new();
    let one = 1.0f32.to_bits();
    assert_eq!(uniform.view_position, [0, 0, 0, 0]);
    assert_eq!(
        uniform.view_proj,
        [[one, 0, 0, 0], [0, one, 0, 0], [0, 0, one, 0], [0, 0, 0, one]]
    );
    assert_eq!(uniform.bytes().len(), 80);
}

#[test]
fn camera_uniform_takes_position_and_matrix() {
    let mut uniform = CameraUniform::new();
    let position = [0.0f32.to_bits(), 5.0f32.to_bits(), 10.0f32.to_bits()];
    let mut matrix = [[0u32; 4]; 4];
    for c in 0..4 {
        for r in 0..4 {
            matrix[c][r] = ((c * 4 + r) as f32).to_bits();
        }
    }
    uniform.update_view_proj(position, matrix);
    assert_eq!(uniform.view_position, [position[0], position[1], position[2], 1.0f32.to_bits()]);
    assert_eq!(uniform.view_proj, matrix);
    let words = uniform.words();
    assert_eq!(words.len(), 20);
    assert_eq!(&words[0..4], &uniform.view_position);
    for c in 0..4 {
        assert_eq!(&words[4 + 4 * c..8 + 4 * c], &matrix[c]);
    }
    let bytes = uniform.bytes();
    assert_eq!(bytes, native(&words));
    assert_eq!(f32::from_ne_bytes([bytes[76], bytes[77], bytes[78], bytes[79]]), 15.0);
}

#[test]
fn labels_of_the_blocks() {
    let system = SystemUniform::new(PhysicalSize::new(1, 1), 0);
    assert_eq!(system.get_buffer_label(), "System Buffer");
    assert_eq!(system.get_bind_group_label(), "System Bind Group");
    let camera = CameraUniform::new();
    assert_eq!(camera.get_buffer_label(), "Camera Buffer");
    assert_eq!(camera.get_bind_group_label(), "Camera Bind Group");
}

#[test]
fn uniform_block_layout_has_one_uniform_slot() {
    let layout = BindGroupLayoutDescriptor::uniform_block("Some Layout");
    assert_eq!(layout.label, "Some Layout");
    assert_eq!(
        layout.entries,
        vec![BindGroupLayoutEntry {
            binding: 0,
            visibility: ShaderStages { vertex: true, fragment: true, compute: false },
            ty: BindingType::Buffer {
                ty: BufferBindingType::Uniform,
                has_dynamic_offset: false,
                min_binding_size: None,
            },
            count: None,
        }]
    );
}

#[test]
fn binding_pairs_block_buffer_and_group() {
    let layout = BindGroupLayoutDescriptor::uniform_block("Time Buffer Bind Group Layout");
    let uniform = SystemUniform::new(PhysicalSize::new(800, 600), 3.5f32.to_bits());
    let mut binding = uniform.make_binding(&layout);
    assert_eq!(*binding.uniform(), uniform);
    assert_eq!(binding.buffer().label, "System Buffer");
    assert_eq!(binding.buffer().contents, uniform.bytes());
    assert_eq!(binding.buffer().contents.len(), 32);
    assert_eq!(
        binding.buffer().usage,
        BufferUsages { uniform: true, copy_dst: true, ..BufferUsages::empty() }
    );
    assert_eq!(binding.bind_group().label, "System Bind Group");
    assert_eq!(binding.bind_group().layout, "Time Buffer Bind Group Layout");
    assert_eq!(
        binding.bind_group().entries,
        vec![BindGroupEntry { binding: 0, resource: BindingResource::Buffer }]
    );

    binding.uniform_mut().update_system(PhysicalSize::new(10, 20), 0);
    assert_eq!(binding.uniform().resolution, [10, 20]);
    assert_eq!(binding.buffer().contents.len(), 32);
    assert_eq!(binding.buffer().contents, uniform.bytes());
    assert_eq!(binding.bind_group().label, "System Bind Group");
}

#[test]
fn buffer_usages_by_name() {
    let none = BufferUsages::empty();
    assert!(!none.uniform && !none.vertex && !none.index && !none.copy_dst);
    assert_eq!(BufferUsages::vertex(), BufferUsages { vertex: true, ..none });
    assert_eq!(BufferUsages::index(), BufferUsages { index: true, ..none });
    assert_eq!(BufferUsages::uniform(), BufferUsages { uniform: true, copy_dst: true, ..none });
}
