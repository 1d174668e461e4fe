//! Textures: what their handles know about them.

use vstd::prelude::*;

use crate::conv::{map_all_known, map_known, map_or};
use crate::error::{handle_error, ErrorSinkRaw};
use crate::native::{WGPUTextureDimension, WGPUTextureFormat, WGPUTextureUsage};
use crate::outside::texture_view_descriptor_default;

verus! {

#[derive(Clone, Copy, Debug, PartialEq, Eq, Structural)]
pub struct WGPUExtent3D {
    pub width: u32,
    pub height: u32,
    pub depthOrArrayLayers: u32,
}

/// What a texture was made with.
#[derive(Clone, Copy, Debug, PartialEq, Eq, Structural)]
pub struct TextureData {
    pub usage: WGPUTextureUsage,
    pub dimension: WGPUTextureDimension,
    pub size: WGPUExtent3D,
    pub format: WGPUTextureFormat,
    pub mip_level_count: u32,
    pub sample_count: u32,
}

/// A texture, by its number. A texture of a surface knows the number of the surface. `K` is where
/// its errors go, `P` is where it is looked up whether the surface has been presented.
#[derive(Debug)]
pub struct WGPUTextureImpl<K, P> {
    pub id: u64,
    pub error_sink: K,
    pub data: TextureData,
    pub surface_id: Option<u64>,
    pub presented_flag: P,
}

#[derive(Clone, Copy, Debug, PartialEq, Eq, Structural)]
pub enum TextureAspect {
    All,
    StencilOnly,
    DepthOnly,
    Plane0,
    Plane1,
    Plane2,
}

/// What part of a texture a view shows, and how. What is not given is taken from the texture.
#[derive(Debug)]
pub struct TextureViewDescriptor {
    pub label: Option<String>,
    pub format: Option<wgpu_types::TextureFormat>,
    pub dimension: Option<wgpu_types::TextureViewDimension>,
    /// A bit for each usage.
    pub usage: Option<u32>,
    pub aspect: TextureAspect,
    pub base_mip_level: u32,
    pub mip_level_count: Option<u32>,
    pub base_array_layer: u32,
    pub array_layer_count: Option<u32>,
}

impl TextureViewDescriptor {
    /// The whole texture, as it is.
    pub open spec fn is_default(&self) -> bool {
        &&& self.label is None
        &&& self.format is None
        &&& self.dimension is None
        &&& self.usage is None
        &&& self.aspect == TextureAspect::All
        &&& self.base_mip_level == 0
        &&& self.mip_level_count is None
        &&& self.base_array_layer == 0
        &&& self.array_layer_count is None
    }
}

/// A view of a texture, by its number.
#[derive(Clone, Copy, Debug, PartialEq, Eq, Structural)]
pub struct WGPUTextureViewImpl {
    pub id: u64,
}

/// The view to make of a texture: the described one, or one of all that there is.
pub fn view_descriptor<N, Convert: Fn(&N) -> TextureViewDescriptor>(
    descriptor: Option<&N>,
    map_texture_view_descriptor: Convert,
) -> (desc: TextureViewDescriptor)
    requires
        descriptor matches Some(descriptor) ==> call_requires(
            map_texture_view_descriptor,
            (descriptor,),
        ),
    ensures
        view_for(descriptor, map_texture_view_descriptor, desc),
        descriptor matches Some(given) ==> call_ensures(map_texture_view_descriptor, (given,), desc),
        descriptor is None ==> {
            &&& desc.label is None
            &&& desc.format is None
            &&& desc.dimension is None
            &&& desc.usage is None
            &&& desc.aspect == TextureAspect::All
            &&& desc.base_mip_level == 0
            &&& desc.mip_level_count is None
            &&& desc.base_array_layer == 0
            &&& desc.array_layer_count is None
        },
{
    match descriptor {
        Some(descriptor) => map_texture_view_descriptor(descriptor),
        None => texture_view_descriptor_default(),
    }
}

/// The view that was made, with an error or without. The error is recorded nowhere.
pub fn view_made<S, U, L, E>(
    error_sink: &mut ErrorSinkRaw<S, U, L>,
    made: (u64, Option<E>),
) -> (view: WGPUTextureViewImpl)
    ensures
        *final(error_sink) == *old(error_sink),
        view.id == made.0,
{
    let (texture_view_id, error) = made;
    if let Some(cause) = error {
        handle_error(error_sink, cause, None, "wgpuTextureCreateView");
    }
    WGPUTextureViewImpl { id: texture_view_id }
}

/// Makes a view of a texture: the described one, or one of all that there is. There is a view
/// even where that fails, and the error is recorded nowhere.
pub fn wgpuTextureCreateView<
    K,
    P,
    N,
    S,
    U,
    L,
    E,
    Convert: Fn(&N) -> TextureViewDescriptor,
    Create: FnOnce(u64, &TextureViewDescriptor) -> (u64, Option<E>),
>(
    texture: &WGPUTextureImpl<K, P>,
    descriptor: Option<&N>,
    error_sink: &mut ErrorSinkRaw<S, U, L>,
    map_texture_view_descriptor: Convert,
    texture_create_view: Create,
) -> (view: WGPUTextureViewImpl)
    requires
        descriptor matches Some(descriptor) ==> call_requires(
            map_texture_view_descriptor,
            (descriptor,),
        ),
        forall|desc: TextureViewDescriptor|
            view_for(descriptor, map_texture_view_descriptor, desc) ==> #[trigger] call_requires(
                texture_create_view,
                (texture.id, &desc),
            ),
    ensures
        *final(error_sink) == *old(error_sink),
        exists|desc: TextureViewDescriptor, made: (u64, Option<E>)|
            view_for(descriptor, map_texture_view_descriptor, desc) && (descriptor matches Some(
                descriptor,
            ) ==> call_ensures(map_texture_view_descriptor, (descriptor,), desc))
                && #[trigger] call_ensures(texture_create_view, (texture.id, &desc), made)
                && view.id == made.0,
{
    let desc = view_descriptor(descriptor, map_texture_view_descriptor);
    let made = texture_create_view(texture.id, &desc);
    view_made(error_sink, made)
}

/// The view to make: what the descriptor converts to, or the whole texture without one.
pub open spec fn view_for<N, Convert: Fn(&N) -> TextureViewDescriptor>(
    descriptor: Option<&N>,
    map_texture_view_descriptor: Convert,
    desc: TextureViewDescriptor,
) -> bool {
    match descriptor {
        Some(descriptor) => call_ensures(map_texture_view_descriptor, (descriptor,), desc),
        None => desc.is_default(),
    }
}

#[derive(Clone, Copy, Debug, PartialEq, Eq, Structural)]
pub enum TextureDimension {
    D1,
    D2,
    D3,
}

/// The texture that the caller wants, in native codes.
#[derive(Debug)]
pub struct WGPUTextureDescriptor {
    pub label: Option<String>,
    pub usage: WGPUTextureUsage,
    pub dimension: WGPUTextureDimension,
    pub size: WGPUExtent3D,
    pub format: WGPUTextureFormat,
    pub mipLevelCount: u32,
    pub sampleCount: u32,
    pub viewFormats: Vec<WGPUTextureFormat>,
}

/// A texture. `X` is its size, `F` a format, `U` its usage.
#[derive(Debug)]
pub struct TextureDescriptor<X, F, U> {
    pub label: Option<String>,
    pub size: X,
    pub mip_level_count: u32,
    pub sample_count: u32,
    pub dimension: TextureDimension,
    pub format: F,
    pub usage: U,
    pub view_formats: Vec<F>,
}

/// The texture to make. Its formats and usage bits have to be known ones; it has two dimensions
/// unless a known code says otherwise.
pub fn wgpuDeviceCreateTexture<
    X,
    F,
    U,
    Extent: Fn(WGPUExtent3D) -> X,
    Format: Fn(WGPUTextureFormat) -> Option<F>,
    Dimension: Fn(WGPUTextureDimension) -> Option<TextureDimension>,
    Usage: Fn(WGPUTextureUsage) -> Option<U>,
>(
    descriptor: WGPUTextureDescriptor,
    map_extent3d: Extent,
    map_texture_format: Format,
    map_texture_dimension: Dimension,
    from_u64_bits: Usage,
) -> (desc: TextureDescriptor<X, F, U>)
    requires
        forall|i: int|
            0 <= i < descriptor.viewFormats@.len() ==> crate::conv::known(
                map_texture_format,
                #[trigger] descriptor.viewFormats@[i],
            ),
        call_requires(map_extent3d, (descriptor.size,)),
        call_requires(map_texture_dimension, (descriptor.dimension,)),
        crate::conv::known(map_texture_format, descriptor.format),
        crate::conv::known(from_u64_bits, descriptor.usage),
    ensures
        desc.label == descriptor.label,
        call_ensures(map_extent3d, (descriptor.size,), desc.size),
        desc.mip_level_count == descriptor.mipLevelCount,
        desc.sample_count == descriptor.sampleCount,
        crate::conv::mapped_or(
            map_texture_dimension,
            descriptor.dimension,
            TextureDimension::D2,
            desc.dimension,
        ),
        call_ensures(map_texture_format, (descriptor.format,), Some(desc.format)),
        call_ensures(from_u64_bits, (descriptor.usage,), Some(desc.usage)),
        desc.view_formats@.len() == descriptor.viewFormats@.len(),
        forall|i: int|
            0 <= i < descriptor.viewFormats@.len() ==> #[trigger] call_ensures(
                map_texture_format,
                (descriptor.viewFormats@[i],),
                Some(desc.view_formats@[i]),
            ),
{
    let view_formats = map_all_known(&map_texture_format, &descriptor.viewFormats);
    TextureDescriptor {
        label: descriptor.label,
        size: map_extent3d(descriptor.size),
        mip_level_count: descriptor.mipLevelCount,
        sample_count: descriptor.sampleCount,
        dimension: map_or(&map_texture_dimension, descriptor.dimension, TextureDimension::D2),
        format: map_known(&map_texture_format, descriptor.format),
        usage: map_known(&from_u64_bits, descriptor.usage),
        view_formats,
    }
}

/// Destroys a texture, whatever comes of it.
pub fn wgpuTextureDestroy<K, P, R, Destroy: FnOnce(u64) -> R>(
    texture: &WGPUTextureImpl<K, P>,
    texture_destroy: Destroy,
)
    requires
        call_requires(texture_destroy, (texture.id,)),
    ensures
        exists|destroyed: R| call_ensures(texture_destroy, (texture.id,), destroyed),
{
    let _destroyed = texture_destroy(texture.id);
}

pub fn wgpuTextureGetDepthOrArrayLayers<K, P>(texture: &WGPUTextureImpl<K, P>) -> (value: u32)
    ensures
        value == texture.data.size.depthOrArrayLayers,
{
    texture.data.size.depthOrArrayLayers
}

pub fn wgpuTextureGetDimension<K, P>(texture: &WGPUTextureImpl<K, P>) -> (value:
    WGPUTextureDimension)
    ensures
        value == texture.data.dimension,
{
    texture.data.dimension
}

pub fn wgpuTextureGetFormat<K, P>(texture: &WGPUTextureImpl<K, P>) -> (value: WGPUTextureFormat)
    ensures
        value == texture.data.format,
{
    texture.data.format
}

pub fn wgpuTextureGetHeight<K, P>(texture: &WGPUTextureImpl<K, P>) -> (value: u32)
    ensures
        value == texture.data.size.height,
{
    texture.data.size.height
}

pub fn wgpuTextureGetMipLevelCount<K, P>(texture: &WGPUTextureImpl<K, P>) -> (value: u32)
    ensures
        value == texture.data.mip_level_count,
{
    texture.data.mip_level_count
}

pub fn wgpuTextureGetSampleCount<K, P>(texture: &WGPUTextureImpl<K, P>) -> (value: u32)
    ensures
        value == texture.data.sample_count,
{
    texture.data.sample_count
}

pub fn wgpuTextureGetUsage<K, P>(texture: &WGPUTextureImpl<K, P>) -> (value: WGPUTextureUsage)
    ensures
        value == texture.data.usage,
{
    texture.data.usage
}

pub fn wgpuTextureGetWidth<K, P>(texture: &WGPUTextureImpl<K, P>) -> (value: u32)
    ensures
        value == texture.data.size.width,
{
    texture.data.size.width
}

/// A described view is in every field the one that the conversion gave; without a descriptor
/// everything is taken from the texture, from its first mip level and array layer on.
pub proof fn law_view_is_the_one_described<N, Convert: Fn(&N) -> TextureViewDescriptor>(
    descriptor: Option<&N>,
    map_texture_view_descriptor: Convert,
    desc: TextureViewDescriptor,
)
    ensures
        descriptor matches Some(descriptor) ==> (view_for(
            Some(descriptor),
            map_texture_view_descriptor,
            desc,
        ) <==> call_ensures(map_texture_view_descriptor, (descriptor,), desc)),
        descriptor is None ==> (view_for(descriptor, map_texture_view_descriptor, desc) <==> {
            &&& desc.label is None
            &&& desc.format is None
            &&& desc.dimension is None
            &&& desc.usage is None
            &&& desc.aspect == TextureAspect::All
            &&& desc.base_mip_level == 0
            &&& desc.mip_level_count is None
            &&& desc.base_array_layer == 0
            &&& desc.array_layer_count is None
        }),
{
}

} // verus!
