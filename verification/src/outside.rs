//! What the library takes from other crates. Nothing in this file is proved: each item states
//! what the source of the other crate shows.

use vstd::prelude::*;

use wgpu_types::Dx12Compiler as Compiler;
use wgpu_types::Gles3MinorVersion as Gles;
use wgpu_types::GlFenceBehavior as Fence;

use crate::adapter::FeatureBits;
use crate::instance::{
    BackendOptions, Dx12Compiler, Gles3MinorVersion, GlFenceBehavior, InstanceDescriptor,
    PowerPreference, RequestAdapterOptions,
};
use crate::texture::{TextureAspect, TextureViewDescriptor};

verus! {

/// `wgpu_types::DxcShaderModel`, carried through unread.
#[verifier::external_type_specification]
#[verifier::external_body]
pub struct ExDxcShaderModel(wgpu_types::DxcShaderModel);

/// `wgpu_types::TextureFormat`, carried through unread.
#[verifier::external_type_specification]
#[verifier::external_body]
pub struct ExTextureFormat(wgpu_types::TextureFormat);

/// `wgpu_types::TextureViewDimension`, carried through unread.
#[verifier::external_type_specification]
#[verifier::external_body]
pub struct ExTextureViewDimension(wgpu_types::TextureViewDimension);

/// The bits of `wgpu_types::Backends::all()`: each of the six backends has one.
#[verifier::external_body]
pub(crate) fn backends_all() -> (bits: u32)
    ensures
        bits == crate::instance::ALL_BACKENDS,
{
    wgpu_types::Backends::all().bits()
}

/// The bits of `wgpu_types::Backends::empty()`: none.
#[verifier::external_body]
pub(crate) fn backends_empty() -> (bits: u32)
    ensures
        bits == 0,
{
    wgpu_types::Backends::empty().bits()
}

/// The bits of `wgpu_types::Backends::BROWSER_WEBGPU`.
#[verifier::external_body]
pub(crate) fn backends_browser_webgpu() -> (bits: u32)
    ensures
        bits == crate::instance::BROWSER_WEBGPU,
{
    wgpu_types::Backends::BROWSER_WEBGPU.bits()
}

/// The bits of `wgpu_types::Backends::DX12`.
#[verifier::external_body]
pub(crate) fn backends_dx12() -> (bits: u32)
    ensures
        bits == crate::instance::DX12,
{
    wgpu_types::Backends::DX12.bits()
}

/// The bits of `wgpu_types::Backends::METAL`.
#[verifier::external_body]
pub(crate) fn backends_metal() -> (bits: u32)
    ensures
        bits == crate::instance::METAL,
{
    wgpu_types::Backends::METAL.bits()
}

/// The bits of `wgpu_types::Backends::VULKAN`.
#[verifier::external_body]
pub(crate) fn backends_vulkan() -> (bits: u32)
    ensures
        bits == crate::instance::VULKAN,
{
    wgpu_types::Backends::VULKAN.bits()
}

/// The bits of `wgpu_types::Backends::GL`.
#[verifier::external_body]
pub(crate) fn backends_gl() -> (bits: u32)
    ensures
        bits == crate::instance::GL,
{
    wgpu_types::Backends::GL.bits()
}

/// `wgpu_types::PowerPreference::default()`: no preference.
#[verifier::external_body]
pub(crate) fn power_preference_default() -> (preference: PowerPreference)
    ensures
        preference == PowerPreference::NoPreference,
{
    match wgpu_types::PowerPreference::default() {
        wgpu_types::PowerPreference::None => PowerPreference::NoPreference,
        wgpu_types::PowerPreference::LowPower => PowerPreference::LowPower,
        wgpu_types::PowerPreference::HighPerformance => PowerPreference::HighPerformance,
    }
}

/// `wgpu_types::RequestAdapterOptions::default()`: no preference, any adapter, any surface.
#[verifier::external_body]
pub(crate) fn request_adapter_options_default<S>() -> (options: RequestAdapterOptions<S>)
    ensures
        options.power_preference == PowerPreference::NoPreference,
        !options.force_fallback_adapter,
        options.compatible_surface is None,
{
    let options = wgpu_types::RequestAdapterOptions::<S>::default();
    RequestAdapterOptions {
        power_preference: match options.power_preference {
            wgpu_types::PowerPreference::None => PowerPreference::NoPreference,
            wgpu_types::PowerPreference::LowPower => PowerPreference::LowPower,
            wgpu_types::PowerPreference::HighPerformance => PowerPreference::HighPerformance,
        },
        force_fallback_adapter: options.force_fallback_adapter,
        compatible_surface: options.compatible_surface,
    }
}

/// `wgpu_types::InstanceDescriptor::default()`: all backends, no memory budget, indirect call
/// validation, to which a build with debug assertions adds debugging and validation, and the
/// options of `wgpu_types::BackendOptions::default()`: any version of OpenGL ES, fences as usual,
/// the Fxc compiler, and no use of the backend that does nothing. Which build it is stays unsaid.
#[verifier::external_body]
pub(crate) fn instance_descriptor_default() -> (desc: InstanceDescriptor)
    ensures
        desc.is_default(),
{
    let desc = wgpu_types::InstanceDescriptor::default();
    let (options, budget) = (desc.backend_options, desc.memory_budget_thresholds);
    let gles_minor_version = match options.gl.gles_minor_version {
        Gles::Automatic => Gles3MinorVersion::Automatic, Gles::Version0 => Gles3MinorVersion::Version0,
        Gles::Version1 => Gles3MinorVersion::Version1, Gles::Version2 => Gles3MinorVersion::Version2 };
    let fence_behavior = match options.gl.fence_behavior {
        Fence::Normal => GlFenceBehavior::Normal, Fence::AutoFinish => GlFenceBehavior::AutoFinish };
    let shader_compiler = match options.dx12.shader_compiler {
        Compiler::Fxc => Dx12Compiler::Fxc, Compiler::StaticDxc => Dx12Compiler::StaticDxc,
        Compiler::DynamicDxc { dxc_path, max_shader_model } =>
            Dx12Compiler::DynamicDxc { dxc_path, max_shader_model } };
    InstanceDescriptor { backends: desc.backends.bits(), flags: desc.flags.bits(),
        for_resource_creation: budget.for_resource_creation, for_device_loss: budget.for_device_loss,
        backend_options: BackendOptions { gles_minor_version, fence_behavior, shader_compiler,
            noop_enable: options.noop.enable } }
}

/// The label of `wgpu_types::CommandEncoderDescriptor::default()`: none.
#[verifier::external_body]
pub(crate) fn command_encoder_label_default() -> (label: Option<String>)
    ensures
        label is None,
{
    wgpu_types::CommandEncoderDescriptor::<Option<String>>::default().label
}

/// `wgpu_types::Features::contains`: every bit of the second set is one of the first.
#[verifier::external_body]
pub(crate) fn features_contains(features: FeatureBits, feature: FeatureBits) -> (contains: bool)
    ensures
        contains == features.includes(feature),
{
    wgpu_types::Features {
        features_wgpu: wgpu_types::FeaturesWGPU::from_bits_retain(features.wgpu),
        features_webgpu: wgpu_types::FeaturesWebGPU::from_bits_retain(features.webgpu),
    }.contains(wgpu_types::Features {
        features_wgpu: wgpu_types::FeaturesWGPU::from_bits_retain(feature.wgpu),
        features_webgpu: wgpu_types::FeaturesWebGPU::from_bits_retain(feature.webgpu),
    })
}

/// `wgpu_core::resource::TextureViewDescriptor::default()`: everything is taken from the texture,
/// all aspects, mip levels and array layers included.
#[verifier::external_body]
pub(crate) fn texture_view_descriptor_default() -> (desc: TextureViewDescriptor)
    ensures
        desc.is_default(),
{
    let desc = wgpu_core::resource::TextureViewDescriptor::default();
    let aspect = match desc.range.aspect {
        wgpu_types::TextureAspect::All => TextureAspect::All,
        wgpu_types::TextureAspect::StencilOnly => TextureAspect::StencilOnly,
        wgpu_types::TextureAspect::DepthOnly => TextureAspect::DepthOnly,
        wgpu_types::TextureAspect::Plane0 => TextureAspect::Plane0,
        wgpu_types::TextureAspect::Plane1 => TextureAspect::Plane1,
        wgpu_types::TextureAspect::Plane2 => TextureAspect::Plane2,
    };
    TextureViewDescriptor { label: desc.label.map(String::from), format: desc.format,
        dimension: desc.dimension, usage: desc.usage.map(|usage| usage.bits()), aspect,
        base_mip_level: desc.range.base_mip_level, mip_level_count: desc.range.mip_level_count,
        base_array_layer: desc.range.base_array_layer,
        array_layer_count: desc.range.array_layer_count }
}

/// The numbers of command buffers, in a `smallvec::SmallVec` with room for four of them inline.
#[verifier::external_body]
#[derive(Debug)]
pub struct CommandBatch {
    items: smallvec::SmallVec<[u64; 4]>,
}

/// The items of the `SmallVec` in a batch, in order.
pub uninterp spec fn batch_items(batch: CommandBatch) -> Seq<u64>;

impl CommandBatch {
    /// `SmallVec::new`: no items.
    #[verifier::external_body]
    pub(crate) fn new() -> (batch: CommandBatch)
        ensures
            batch_items(batch) == Seq::<u64>::empty(),
    {
        CommandBatch { items: smallvec::SmallVec::new() }
    }

    /// `SmallVec::push`: the item comes last, the others stay as they are.
    #[verifier::external_body]
    pub(crate) fn push(&mut self, item: u64)
        ensures
            batch_items(*final(self)) == batch_items(*old(self)).push(item),
    {
        self.items.push(item)
    }

    /// `SmallVec::as_slice`: the items, in order.
    #[verifier::external_body]
    pub(crate) fn as_slice(&self) -> (items: &[u64])
        ensures
            items@ == batch_items(*self),
    {
        self.items.as_slice()
    }
}

} // verus!
