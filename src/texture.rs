use vstd::prelude::*;

verus! {

/// Bytes of one RGBA8 texel.
pub const BYTES_PER_TEXEL: u64 = 4;

/// Size in texels of a two-dimensional RGBA8 texture.
#[derive(PartialEq, Eq, Structural, Clone, Copy, Debug)]
pub struct TextureExtent {
    pub width: u32,
    pub height: u32,
}

/// How a texture's GPU copy takes new image contents.
#[derive(PartialEq, Eq, Structural, Clone, Copy, Debug)]
pub enum TextureUpdate {
    /// The extent is unchanged: the texels are written over the old ones.
    WriteInPlace,
    /// The extent changed: a new texture replaces the old one.
    Reallocate,
}

#[derive(PartialEq, Eq, Structural, Clone, Copy, Debug)]
pub enum TextureError {
    /// The image holds another number of bytes than its extent calls for.
    DataLength { expected: u64, found: u64 },
    /// The extent's byte size does not fit in 64 bits.
    TooLarge,
}

pub open spec fn texel_bytes(e: TextureExtent) -> nat {
    e.width as nat * e.height as nat * BYTES_PER_TEXEL as nat
}

/// The number of bytes of an image of extent `e`, if it fits in 64 bits.
pub fn image_byte_len(e: TextureExtent) -> (r: Option<u64>)
    ensures
        r is Some <==> texel_bytes(e) <= u64::MAX,
        r matches Some(n) ==> n == texel_bytes(e),
{
    let w: u64 = e.width as u64;
    let h: u64 = e.height as u64;
    assert(w * h <= u32::MAX as nat * u32::MAX as nat) by (nonlinear_arith)
        requires
            w <= u32::MAX,
            h <= u32::MAX,
    ;
    let texels: u64 = w * h;
    texels.checked_mul(BYTES_PER_TEXEL)
}

/// Decides how a texture of extent `current` takes an image of extent
/// `next` holding `data_len` bytes: refused unless the length matches the
/// extent, written in place when the extent is unchanged, reallocated
/// otherwise.
pub fn plan_texture_update(current: TextureExtent, next: TextureExtent, data_len: u64) -> (r: Result<
    TextureUpdate,
    TextureError,
>)
    ensures
        texel_bytes(next) > u64::MAX ==> r == Err::<TextureUpdate, TextureError>(
            TextureError::TooLarge,
        ),
        texel_bytes(next) <= u64::MAX && data_len != texel_bytes(next) ==> r == Err::<
            TextureUpdate,
            TextureError,
        >(TextureError::DataLength { expected: texel_bytes(next) as u64, found: data_len }),
        data_len == texel_bytes(next) ==> r == Ok::<TextureUpdate, TextureError>(
            if current == next {
                TextureUpdate::WriteInPlace
            } else {
                TextureUpdate::Reallocate
            },
        ),
{
    let expected = match image_byte_len(next) {
        Some(n) => n,
        None => return Err(TextureError::TooLarge),
    };
    if data_len != expected {
        return Err(TextureError::DataLength { expected, found: data_len });
    }
    if current == next {
        Ok(TextureUpdate::WriteInPlace)
    } else {
        Ok(TextureUpdate::Reallocate)
    }
}

} // verus!
