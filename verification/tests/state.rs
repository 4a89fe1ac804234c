use pira_wgpu::factories::texture::{
    AddressMode, DepthTextureFactory, Extent3d, FilterMode, TextureFormat, TextureUsages,
};
use pira_wgpu::state::{ReadbackLayout, Size, State, SURFACE_BYTES_PER_PIXEL};

#[test]
fn size_new_keeps_dimensions() {
    let size = Size::new(640, 480);
    assert_eq!(size.width, 640);
    assert_eq!(size.height, 480);
    assert!(!size.is_empty());
    assert!(Size::new(0, 480).is_empty());
    assert!(Size::new(640, 0).is_empty());
}

#[test]
fn state_starts_with_a_depth_buffer() {
    let state = State::new(4, Size::new(800, 600));
    assert_eq!(state.surface_size, Size::new(800, 600));
    assert_eq!(state.get_sample_count(), 4);
    let depth = state.depth_texture.unwrap();
    assert_eq!(depth, DepthTextureFactory::new(Size::new(800, 600), 4));
    assert_eq!(depth.texture.size, Extent3d { width: 800, height: 600, depth_or_array_layers: 1 });
    assert_eq!(depth.texture.format, TextureFormat::Depth24Plus);
    assert_eq!(depth.texture.sample_count, 4);
    assert_eq!(depth.texture.usage, TextureUsages::depth_target());
    assert_eq!(depth.sampler.address_mode_u, AddressMode::ClampToEdge);
    assert_eq!(depth.sampler.mag_filter, FilterMode::Linear);
    assert_eq!(depth.sampler.mipmap_filter, FilterMode::Nearest);
}

#[test]
fn resize_ignores_empty_sizes() {
    let mut state = State::new(1, Size::new(800, 600));
    let before = state;
    assert!(!state.resize(Size::new(0, 600)));
    assert_eq!(state, before);
    assert!(!state.resize(Size::new(800, 0)));
    assert_eq!(state, before);
}

#[test]
fn resize_replaces_the_depth_buffer() {
    let mut state = State::new(2, Size::new(800, 600));
    assert!(state.resize(Size::new(1024, 768)));
    assert_eq!(state.surface_size, Size::new(1024, 768));
    assert_eq!(state.sample_count, 2);
    assert_eq!(state.depth_texture, Some(DepthTextureFactory::new(Size::new(1024, 768), 2)));
    state.depth_texture = None;
    assert!(state.resize(Size::new(10, 20)));
    assert_eq!(state.surface_size, Size::new(10, 20));
    assert_eq!(state.depth_texture, None);
}

#[test]
fn readback_rows_are_padded_to_256_bytes() {
    assert_eq!(SURFACE_BYTES_PER_PIXEL, 4);
    let layout = ReadbackLayout::new(100, 3).unwrap();
    assert_eq!(layout.unpadded_bytes_per_row, 400);
    assert_eq!(layout.padded_bytes_per_row, 512);
    assert_eq!(layout.rows, 3);
    assert_eq!(layout.buffer_size, 1536);
    let exact = ReadbackLayout::new(64, 2).unwrap();
    assert_eq!(exact.unpadded_bytes_per_row, 256);
    assert_eq!(exact.padded_bytes_per_row, 256);
    assert_eq!(exact.buffer_size, 512);
    let one = ReadbackLayout::new(1, 1).unwrap();
    assert_eq!(one.padded_bytes_per_row, 256);
    let empty = ReadbackLayout::new(0, 7).unwrap();
    assert_eq!(empty.padded_bytes_per_row, 0);
    assert_eq!(empty.buffer_size, 0);
}

#[test]
fn readback_layout_fails_where_a_row_exceeds_32_bits() {
    // 4 * 2^30 bytes do not fit in 32 bits.
    assert_eq!(ReadbackLayout::new(1 << 30, 1), None);
    assert_eq!(ReadbackLayout::new(u32::MAX, 1), None);
    // 4 * (2^30 - 64) == 2^32 - 256, the largest padded row.
    let widest = ReadbackLayout::new((1 << 30) - 64, u32::MAX).unwrap();
    assert_eq!(widest.padded_bytes_per_row, 0xffff_ff00);
    assert_eq!(widest.buffer_size, 0xffff_ff00u64 * 0xffff_ffffu64);
    assert_eq!(ReadbackLayout::new((1 << 30) - 63, 1), None);
}

#[test]
fn strip_row_padding_keeps_the_texels_of_every_row() {
    let layout = ReadbackLayout::new(2, 3).unwrap();
    assert_eq!(layout.unpadded_bytes_per_row, 8);
    assert_eq!(layout.padded_bytes_per_row, 256);
    let mut data = vec![0xEEu8; 768];
    for row in 0..3usize {
        for column in 0..8usize {
            data[row * 256 + column] = (row * 8 + column) as u8;
        }
    }
    let texels = layout.strip_row_padding(&data).unwrap();
    assert_eq!(texels, (0u8..24).collect::<Vec<u8>>());
    // A longer buffer is fine, a shorter one is not.
    data.push(1);
    assert_eq!(layout.strip_row_padding(&data).unwrap().len(), 24);
    assert_eq!(layout.strip_row_padding(&data[..767]), None);
    assert_eq!(layout.strip_row_padding(&[]), None);
}

#[test]
fn strip_row_padding_of_an_empty_surface() {
    let layout = ReadbackLayout::new(0, 0).unwrap();
    assert_eq!(layout.strip_row_padding(&[]), Some(Vec::new()));
    let layout = ReadbackLayout::new(5, 0).unwrap();
    assert_eq!(layout.strip_row_padding(&[1, 2, 3]), Some(Vec::new()));
}
