use smoke_sim::texture::{
    pack_rgba16_texels, rgba16_bytes_per_row, ChannelFormat, ConfigError, Rgba16, Texture,
};

#[test]
fn field_buffer_creation_validates_the_grid() {
    assert!(Texture::create_compute_texture(64, ChannelFormat::Rgba16Float).is_ok());
    assert_eq!(
        Texture::create_compute_texture(0, ChannelFormat::Rgba16Float).unwrap_err(),
        ConfigError::ZeroGridResolution
    );
    assert_eq!(
        Texture::create_compute_texture(63, ChannelFormat::Rgba16Float).unwrap_err(),
        ConfigError::GridNotDivisibleByThreadGroup
    );
}

#[test]
fn texels_pack_little_endian_in_channel_order() {
    let texels = vec![Rgba16 { r: 0x1234, g: 0xABCD, b: 0x0001, a: 0xFF00 }];
    let bytes = pack_rgba16_texels(&texels);
    assert_eq!(bytes, vec![0x34, 0x12, 0xCD, 0xAB, 0x01, 0x00, 0x00, 0xFF]);
}

#[test]
fn packing_is_eight_bytes_per_texel_in_order() {
    let texels = vec![
        Rgba16 { r: 1, g: 2, b: 3, a: 4 },
        Rgba16 { r: 0x0100, g: 0x0200, b: 0x0300, a: 0x0400 },
    ];
    let bytes = pack_rgba16_texels(&texels);
    assert_eq!(bytes.len(), 16);
    assert_eq!(&bytes[..8], &[1, 0, 2, 0, 3, 0, 4, 0]);
    assert_eq!(&bytes[8..], &[0, 1, 0, 2, 0, 3, 0, 4]);
}

#[test]
fn empty_upload_packs_to_nothing() {
    let bytes = pack_rgba16_texels(&vec![]);
    assert!(bytes.is_empty());
}

#[test]
fn row_stride_is_eight_bytes_per_voxel() {
    assert_eq!(rgba16_bytes_per_row(64), 512);
}
