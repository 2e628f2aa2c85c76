use rendiation::texture::{
    image_byte_len, plan_texture_update, TextureError, TextureExtent, TextureUpdate,
};

fn extent(width: u32, height: u32) -> TextureExtent {
    TextureExtent { width, height }
}

#[test]
fn same_extent_is_written_in_place() {
    let e = extent(512, 512);
    assert_eq!(
        plan_texture_update(e, e, 512 * 512 * 4),
        Ok(TextureUpdate::WriteInPlace)
    );
}

#[test]
fn new_extent_reallocates() {
    assert_eq!(
        plan_texture_update(extent(512, 512), extent(256, 128), 256 * 128 * 4),
        Ok(TextureUpdate::Reallocate)
    );
}

#[test]
fn wrong_image_length_is_refused() {
    assert_eq!(
        plan_texture_update(extent(2, 2), extent(2, 2), 15),
        Err(TextureError::DataLength { expected: 16, found: 15 })
    );
}

#[test]
fn image_byte_len_counts_four_bytes_per_texel() {
    assert_eq!(image_byte_len(extent(3, 5)), Some(60));
    assert_eq!(image_byte_len(extent(0, 9)), Some(0));
    assert_eq!(
        image_byte_len(extent(u32::MAX, u32::MAX)),
        None
    );
    assert_eq!(
        plan_texture_update(extent(1, 1), extent(u32::MAX, u32::MAX), 0),
        Err(TextureError::TooLarge)
    );
}
