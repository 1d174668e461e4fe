//! Instances: how they are set up, and how adapters and surfaces are asked of them.

use vstd::prelude::*;

use crate::error::value_or_fatal;
use crate::native::{
    Userdata, WGPUBackendType, WGPUBool, WGPUFuture, WGPUPowerPreference, WGPURequestAdapterStatus,
    WGPUStatus,
};
use crate::outside::{
    backends_all, backends_browser_webgpu, backends_dx12, backends_empty, backends_gl,
    backends_metal, backends_vulkan, instance_descriptor_default, power_preference_default,
    request_adapter_options_default,
};

verus! {

/// The bits by which `wgpu_types::Backends` names its backends.
pub const VULKAN: u32 = 0x02;

pub const METAL: u32 = 0x04;

pub const DX12: u32 = 0x08;

pub const GL: u32 = 0x10;

pub const BROWSER_WEBGPU: u32 = 0x20;

pub const ALL_BACKENDS: u32 = 0x3f;

/// What an instance can wait for.
#[derive(Clone, Copy, Debug, PartialEq, Eq, Structural)]
pub struct WGPUInstanceCapabilities {
    pub timedWaitAnyEnable: WGPUBool,
    pub timedWaitAnyMaxCount: usize,
}

/// What the caller wants of an instance. `X` is what follows in the chain of the struct.
#[derive(Debug)]
pub struct WGPUInstanceDescriptor<X> {
    pub features: WGPUInstanceCapabilities,
    pub extras: X,
}

/// The minor version of OpenGL ES 3 to ask for.
#[derive(Clone, Copy, Debug, PartialEq, Eq, Structural)]
pub enum Gles3MinorVersion {
    /// The highest that there is.
    Automatic,
    Version0,
    Version1,
    Version2,
}

/// When a fence of OpenGL is passed.
#[derive(Clone, Copy, Debug, PartialEq, Eq, Structural)]
pub enum GlFenceBehavior {
    Normal,
    /// At once.
    AutoFinish,
}

/// The compiler for shaders of DirectX 12.
#[derive(Debug)]
pub enum Dx12Compiler {
    Fxc,
    DynamicDxc { dxc_path: String, max_shader_model: wgpu_types::DxcShaderModel },
    StaticDxc,
}

/// What is asked of single backends.
#[derive(Debug)]
pub struct BackendOptions {
    pub gles_minor_version: Gles3MinorVersion,
    pub fence_behavior: GlFenceBehavior,
    pub shader_compiler: Dx12Compiler,
    /// The backend that does nothing may be used.
    pub noop_enable: bool,
}

/// How an instance is set up.
#[derive(Debug)]
pub struct InstanceDescriptor {
    /// A bit for each backend that may be used.
    pub backends: u32,
    /// A bit for each debugging aid.
    pub flags: u32,
    pub for_resource_creation: Option<u8>,
    pub for_device_loss: Option<u8>,
    pub backend_options: BackendOptions,
}

impl InstanceDescriptor {
    /// All backends with their usual options, of which the one that does nothing stays switched
    /// off, and no memory budget. Which debugging aids there are, the build of the graphics
    /// library decides.
    pub open spec fn is_default(&self) -> bool {
        &&& self.backends == ALL_BACKENDS
        &&& self.flags == 0x20 || self.flags == 0x23
        &&& self.for_resource_creation is None
        &&& self.for_device_loss is None
        &&& self.backend_options.gles_minor_version == Gles3MinorVersion::Automatic
        &&& self.backend_options.fence_behavior == GlFenceBehavior::Normal
        &&& self.backend_options.shader_compiler is Fxc
        &&& !self.backend_options.noop_enable
    }
}

/// The setup of a new instance. Timed waits must not be asked for: there are none.
pub fn wgpuCreateInstance<X, Convert: Fn(&WGPUInstanceDescriptor<X>) -> InstanceDescriptor>(
    descriptor: Option<&WGPUInstanceDescriptor<X>>,
    map_instance_descriptor: Convert,
) -> (desc: InstanceDescriptor)
    requires
        descriptor matches Some(descriptor) ==> {
            &&& descriptor.features.timedWaitAnyEnable == 0
            &&& descriptor.features.timedWaitAnyMaxCount == 0
            &&& call_requires(map_instance_descriptor, (descriptor,))
        },
    ensures
        match descriptor {
            Some(descriptor) => call_ensures(map_instance_descriptor, (descriptor,), desc),
            None => desc.is_default(),
        },
{
    match descriptor {
        Some(descriptor) => map_instance_descriptor(descriptor),
        None => instance_descriptor_default(),
    }
}

/// Tells what an instance can wait for: timed waits are not supported at all.
pub fn wgpuGetInstanceCapabilities(capabilities: &mut WGPUInstanceCapabilities) -> (status:
    WGPUStatus)
    ensures
        status == WGPUStatus::Success,
        final(capabilities).timedWaitAnyEnable == 0,
        final(capabilities).timedWaitAnyMaxCount == 0,
{
    capabilities.timedWaitAnyEnable = 0;
    capabilities.timedWaitAnyMaxCount = 0;
    WGPUStatus::Success
}

#[derive(Clone, Copy, Debug, PartialEq, Eq, Structural)]
pub enum PowerPreference {
    NoPreference,
    LowPower,
    HighPerformance,
}

/// What an adapter has to offer. `S` is a surface.
#[derive(Debug)]
pub struct RequestAdapterOptions<S> {
    pub power_preference: PowerPreference,
    pub force_fallback_adapter: bool,
    pub compatible_surface: Option<S>,
}

#[derive(Debug)]
pub struct WGPURequestAdapterOptions<S> {
    pub powerPreference: WGPUPowerPreference,
    pub forceFallbackAdapter: WGPUBool,
    pub backendType: WGPUBackendType,
    pub compatibleSurface: Option<S>,
}

/// What becomes of a request for an adapter.
#[derive(Debug)]
pub enum AdapterRequest<S, C> {
    /// The adapter wanted, and the bits of the backends to look among. The request ends here: it
    /// is not passed on, and the caller is not called back.
    Search { options: RequestAdapterOptions<S>, backends: u32 },
    /// The caller is called back at once, without an adapter.
    Refuse {
        callback: C,
        status: WGPURequestAdapterStatus,
        message: String,
        userdata: Userdata,
    },
}

pub open spec fn power_preference(code: WGPUPowerPreference) -> PowerPreference {
    match code {
        WGPUPowerPreference::LowPower => PowerPreference::LowPower,
        WGPUPowerPreference::HighPerformance => PowerPreference::HighPerformance,
        WGPUPowerPreference::Other(_) => PowerPreference::NoPreference,
    }
}

/// The backends of a type. The type that is not supported has none here, nor have unknown codes.
pub open spec fn backends_of(code: WGPUBackendType) -> Option<u32> {
    match code {
        WGPUBackendType::Undefined => Some(ALL_BACKENDS),
        WGPUBackendType::Null => Some(0),
        WGPUBackendType::WebGPU => Some(BROWSER_WEBGPU),
        WGPUBackendType::D3D12 => Some(DX12),
        WGPUBackendType::Metal => Some(METAL),
        WGPUBackendType::Vulkan => Some(VULKAN),
        WGPUBackendType::OpenGL => Some(GL),
        WGPUBackendType::OpenGLES => Some(GL),
        WGPUBackendType::D3D11 => None,
        WGPUBackendType::Other(_) => None,
    }
}

/// Decides on a request for an adapter. There is no future to wait on.
pub fn wgpuInstanceRequestAdapter<S, C>(
    options: Option<WGPURequestAdapterOptions<S>>,
    callback: C,
    userdata: Userdata,
) -> (result: (AdapterRequest<S, C>, WGPUFuture))
    requires
        options matches Some(options) ==> options.backendType !is Other,
    ensures
        result.1 == WGPUFuture::null(),
        match options {
            Some(options) => match backends_of(options.backendType) {
                Some(bits) => result.0 == (AdapterRequest::<S, C>::Search {
                    options: RequestAdapterOptions {
                        power_preference: power_preference(options.powerPreference),
                        force_fallback_adapter: options.forceFallbackAdapter != 0,
                        compatible_surface: options.compatibleSurface,
                    },
                    backends: bits,
                }),
                None => result.0 matches AdapterRequest::Refuse {
                    callback: c,
                    status,
                    message,
                    userdata: u,
                } && c == callback && status == WGPURequestAdapterStatus::Error && message@
                    == "unsupported backend type: d3d11"@ && u == userdata,
            },
            None => result.0 == (AdapterRequest::<S, C>::Search {
                options: RequestAdapterOptions {
                    power_preference: PowerPreference::NoPreference,
                    force_fallback_adapter: false,
                    compatible_surface: None,
                },
                backends: ALL_BACKENDS,
            }),
        },
{
    let (desc, inputs): (RequestAdapterOptions<S>, u32) = match options {
        Some(options) => {
            let backends: u32 = match options.backendType {
                WGPUBackendType::Undefined => backends_all(),
                WGPUBackendType::Null => backends_empty(),
                WGPUBackendType::WebGPU => backends_browser_webgpu(),
                WGPUBackendType::D3D12 => backends_dx12(),
                WGPUBackendType::Metal => backends_metal(),
                WGPUBackendType::Vulkan => backends_vulkan(),
                WGPUBackendType::OpenGL => backends_gl(),
                WGPUBackendType::OpenGLES => backends_gl(),
                _ => {
                    return (
                        AdapterRequest::Refuse {
                            callback,
                            status: WGPURequestAdapterStatus::Error,
                            message: String::from_str("unsupported backend type: d3d11"),
                            userdata,
                        },
                        WGPUFuture::null(),
                    );
                },
            };
            (
                RequestAdapterOptions {
                    power_preference: match options.powerPreference {
                        WGPUPowerPreference::LowPower => PowerPreference::LowPower,
                        WGPUPowerPreference::HighPerformance => PowerPreference::HighPerformance,
                        WGPUPowerPreference::Other(_) => power_preference_default(),
                    },
                    force_fallback_adapter: options.forceFallbackAdapter != 0,
                    compatible_surface: options.compatibleSurface,
                },
                backends,
            )
        },
        None => (request_adapter_options_default(), backends_all()),
    };
    (AdapterRequest::Search { options: desc, backends: inputs }, WGPUFuture::null())
}

/// The backends whose adapters are listed: those asked for, or all.
pub fn enumerated_backends<Convert: Fn(u64) -> u32>(
    backends: Option<u64>,
    map_instance_backend_flags: Convert,
) -> (inputs: u32)
    requires
        backends matches Some(flags) ==> call_requires(map_instance_backend_flags, (flags,)),
    ensures
        match backends {
            Some(flags) => call_ensures(map_instance_backend_flags, (flags,), inputs),
            None => inputs == ALL_BACKENDS,
        },
{
    match backends {
        Some(flags) => map_instance_backend_flags(flags),
        None => backends_all(),
    }
}

/// Counts the adapters found, and writes them into the caller's array if there is one.
pub fn wgpuInstanceEnumerateAdapters<H: Copy>(
    result: &Vec<H>,
    adapters: Option<&mut Vec<H>>,
) -> (count: usize)
    requires
        adapters matches Some(adapters) ==> result@.len() <= adapters@.len(),
    ensures
        count == result@.len(),
        adapters matches Some(adapters) ==> final(adapters)@ == result@ + adapters@.skip(
            result@.len() as int,
        ),
{
    let count: usize = result.len();
    match adapters {
        Some(adapters) => {
            let ghost before = adapters@;
            let mut i: usize = 0;
            while i < count
                invariant
                    i <= count,
                    count == result@.len(),
                    count <= before.len(),
                    adapters@ == result@.take(i as int) + before.skip(i as int),
                decreases count - i,
            {
                adapters[i] = result[i];
                i = i + 1;
            }
        },
        None => {},
    }
    count
}

/// Where the pixels of a surface go, as its descriptor says: to a window on a display, to a Metal
/// layer, or to a swap chain panel.
#[derive(Debug)]
pub enum CreateSurfaceParams<D, W, M, P> {
    Raw((D, W)),
    Metal(M),
    SwapChainPanel(P),
}

/// Where the pixels of a surface go, as the graphics library wants to know it.
#[derive(Debug)]
pub enum SurfaceTarget<D, W, M, P> {
    RawHandle { raw_display_handle: D, raw_window_handle: W },
    MetalLayer { layer: M },
    SwapChainPanel { panel: P },
}

/// Makes a surface for a target. The error is what to panic with.
pub fn wgpuInstanceCreateSurface<
    D,
    W,
    M,
    P,
    T,
    E,
    Create: FnOnce(SurfaceTarget<D, W, M, P>) -> Result<T, E>,
>(
    create_surface_params: CreateSurfaceParams<D, W, M, P>,
    create_surface: Create,
) -> (surface: Result<T, String>)
    requires
        call_requires(create_surface, (target_of(create_surface_params),)),
    ensures
        exists|created: Result<T, E>| #[trigger]
            call_ensures(create_surface, (target_of(create_surface_params),), created)
                && match created {
                Ok(t) => surface == Ok::<T, String>(t),
                Err(_) => surface matches Err(text) && text@ == crate::error::fatal_report(
                    "wgpuInstanceCreateSurface"@,
                ),
            },
{
    let target = match create_surface_params {
        CreateSurfaceParams::Raw((rdh, rwh)) => SurfaceTarget::RawHandle {
            raw_display_handle: rdh,
            raw_window_handle: rwh,
        },
        CreateSurfaceParams::Metal(layer) => SurfaceTarget::MetalLayer { layer },
        CreateSurfaceParams::SwapChainPanel(panel) => SurfaceTarget::SwapChainPanel { panel },
    };
    value_or_fatal(create_surface(target), "wgpuInstanceCreateSurface")
}

pub open spec fn target_of<D, W, M, P>(params: CreateSurfaceParams<D, W, M, P>) -> SurfaceTarget<
    D,
    W,
    M,
    P,
> {
    match params {
        CreateSurfaceParams::Raw((display, window)) => SurfaceTarget::RawHandle {
            raw_display_handle: display,
            raw_window_handle: window,
        },
        CreateSurfaceParams::Metal(layer) => SurfaceTarget::MetalLayer { layer },
        CreateSurfaceParams::SwapChainPanel(panel) => SurfaceTarget::SwapChainPanel { panel },
    }
}

/// Whatever type of backend is asked for, only backends that exist are searched.
pub proof fn law_backends_are_among_all(code: WGPUBackendType)
    ensures
        backends_of(code) matches Some(bits) ==> bits & ALL_BACKENDS == bits,
{
    assert(0x00u32 & 0x3f == 0x00 && 0x02u32 & 0x3f == 0x02 && 0x04u32 & 0x3f == 0x04 && 0x08u32
        & 0x3f == 0x08 && 0x10u32 & 0x3f == 0x10 && 0x20u32 & 0x3f == 0x20 && 0x3fu32 & 0x3f
        == 0x3f) by (bit_vector);
}

/// A request for one type of backend is searched for under the bit of that backend and no other;
/// without a type all backends are searched, for the null backend none, and both kinds of OpenGL
/// are the same backend.
pub proof fn law_each_backend_has_its_bit(code: WGPUBackendType)
    ensures
        backends_of(code) == Some(0x3fu32) <==> code is Undefined,
        backends_of(code) == Some(0u32) <==> code is Null,
        backends_of(code) == Some(0x20u32) <==> code is WebGPU,
        backends_of(code) == Some(0x08u32) <==> code is D3D12,
        backends_of(code) == Some(0x04u32) <==> code is Metal,
        backends_of(code) == Some(0x02u32) <==> code is Vulkan,
        backends_of(code) == Some(0x10u32) <==> code is OpenGL || code is OpenGLES,
        backends_of(code) is None <==> code is D3D11 || code is Other,
{
}

/// A preference is passed on as it is; any other code is no preference.
pub proof fn law_preferences_are_kept(code: WGPUPowerPreference)
    ensures
        power_preference(code) == PowerPreference::LowPower <==> code is LowPower,
        power_preference(code) == PowerPreference::HighPerformance <==> code is HighPerformance,
        power_preference(code) == PowerPreference::NoPreference <==> code is Other,
{
}

/// A surface is made for what its descriptor says: the window on the display, the layer or the
/// panel, each as it was given.
pub proof fn law_surface_target_is_the_one_given<D, W, M, P>(params: CreateSurfaceParams<D, W, M, P>)
    ensures
        params matches CreateSurfaceParams::Raw((display, window)) ==> (target_of(params) matches SurfaceTarget::RawHandle {
            raw_display_handle,
            raw_window_handle,
        } && raw_display_handle == display && raw_window_handle == window),
        params matches CreateSurfaceParams::Metal(given) ==> (target_of(params) matches SurfaceTarget::MetalLayer {
            layer,
        } && layer == given),
        params matches CreateSurfaceParams::SwapChainPanel(given) ==> (target_of(params) matches SurfaceTarget::SwapChainPanel {
            panel,
        } && panel == given),
{
}

/// A default setup leaves no choice but the debugging aids: indirect calls are validated in any
/// case, and debugging and validation come together or not at all.
pub proof fn law_default_setup(desc: InstanceDescriptor)
    requires
        desc.is_default(),
    ensures
        desc.backends == 0x3f,
        desc.flags & 0x20 == 0x20,
        desc.flags & 0x03 == 0x03 || desc.flags & 0x03 == 0,
        desc.flags & !0x23u32 == 0,
        desc.for_resource_creation is None,
        desc.for_device_loss is None,
        desc.backend_options.gles_minor_version == Gles3MinorVersion::Automatic,
        desc.backend_options.fence_behavior == GlFenceBehavior::Normal,
        desc.backend_options.shader_compiler is Fxc,
        !desc.backend_options.noop_enable,
{
    assert(0x20u32 & 0x20 == 0x20 && 0x23u32 & 0x20 == 0x20 && 0x20u32 & 0x03 == 0 && 0x23u32 & 0x03
        == 0x03 && 0x20u32 & !0x23u32 == 0 && 0x23u32 & !0x23u32 == 0) by (bit_vector);
}

} // verus!
