use inox2d_wgpu::cmd::{BlendMode, MaskingMode, RenderCommand, UniformBlock};
use inox2d_wgpu::uniforms::{uniforms_fit, UniformBuffer, UniformUpload, INITIAL_UNIFORM_CAPACITY};

fn draw(b: u8) -> RenderCommand {
    RenderCommand::Draw {
        texture_index: 0,
        index_offset: 0,
        index_count: 3,
        blend_mode: BlendMode::Normal,
        opacity: 0,
        uniforms: UniformBlock { bytes: [b; 112] },
    }
}

#[test]
fn no_commands_leave_the_staging_area_alone() {
    let mut u = UniformBuffer::new();
    assert_eq!(u.write_uniforms(&[(0, draw(1))]), UniformUpload::Upload);
    assert_eq!(u.staging().len(), 256);
    assert_eq!(u.write_uniforms(&[]), UniformUpload::Skip);
    assert_eq!(u.staging().len(), 256);
}

#[test]
fn commands_without_draws_upload_nothing() {
    let mut u = UniformBuffer::new();
    let cmds = [(0, RenderCommand::SetMaskingMode(MaskingMode::NoMask)), (0, RenderCommand::BeginComposite)];
    assert_eq!(u.write_uniforms(&cmds), UniformUpload::Skip);
    assert!(u.staging().is_empty());
    assert_eq!(u.capacity(), INITIAL_UNIFORM_CAPACITY);
}

#[test]
fn each_block_fills_an_aligned_slot() {
    let mut u = UniformBuffer::new();
    let cmds = [(0, draw(5)), (0, RenderCommand::BeginComposite), (0, draw(6))];
    u.write_uniforms(&cmds);
    let s = u.staging();
    assert_eq!(s.len(), 512);
    assert!(s[..112].iter().all(|b| *b == 5));
    assert!(s[112..256].iter().all(|b| *b == 0));
    assert!(s[256..368].iter().all(|b| *b == 6));
    assert!(s[368..].iter().all(|b| *b == 0));
}

#[test]
fn buffer_grows_to_twice_the_required_size() {
    let mut u = UniformBuffer::new();
    let cmds: Vec<(usize, RenderCommand)> = (0..256).map(|i| (0, draw(i as u8))).collect();
    // 256 slots fit the initial 64 KiB exactly.
    assert_eq!(u.write_uniforms(&cmds), UniformUpload::Upload);
    let mut more = cmds.clone();
    more.push((0, draw(1)));
    assert_eq!(u.write_uniforms(&more), UniformUpload::GrowAndUpload { capacity: 257 * 256 * 2 });
    assert_eq!(u.capacity(), 131584);
}

#[test]
fn ordinary_frames_fit_the_staging_area() {
    assert!(uniforms_fit(&[]));
    let cmds: Vec<(usize, RenderCommand)> = (0..1000u32).map(|k| (0, draw(k as u8))).collect();
    assert!(uniforms_fit(&cmds));
}
