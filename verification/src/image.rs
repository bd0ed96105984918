//! Images: textures on the device that can be drawn.

use crate::sampler::SamplerDescriptor;
use crate::target::{ShaderResourceHandle, TextureHandle};
use crate::types::BlendMode;
use vstd::prelude::*;

verus! {

/// A texture on the device, with how it is sampled and blended.
#[derive(Clone, Copy, Debug, PartialEq, Eq, Structural)]
pub struct Image {
    /// The view through which shaders read the texture.
    pub texture: ShaderResourceHandle,
    /// The texture itself.
    pub texture_handle: TextureHandle,
    /// How the texture is sampled.
    pub sampler_info: SamplerDescriptor,
    /// How the image is blended; `None` leaves that to the context.
    pub blend_mode: Option<BlendMode>,
    /// Width in texels.
    pub width: u16,
    /// Height in texels.
    pub height: u16,
}

} // verus!
