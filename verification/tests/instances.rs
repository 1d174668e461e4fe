use wgpu_native::instance::{
    AdapterRequest, BackendOptions, CreateSurfaceParams, Dx12Compiler, Gles3MinorVersion,
    GlFenceBehavior, InstanceDescriptor, PowerPreference, SurfaceTarget, WGPUInstanceCapabilities,
    WGPUInstanceDescriptor, WGPURequestAdapterOptions,
};
use wgpu_native::native::{
    Userdata, WGPUBackendType, WGPUFuture, WGPUPowerPreference, WGPURequestAdapterStatus,
    WGPUStatus,
};
use wgpu_native::{
    enumerated_backends, wgpuCreateInstance, wgpuGetInstanceCapabilities,
    wgpuInstanceCreateSurface, wgpuInstanceEnumerateAdapters, wgpuInstanceRequestAdapter,
};

fn user() -> Userdata {
    Userdata { userdata1: 1, userdata2: 2 }
}

fn options(
    backendType: WGPUBackendType,
    powerPreference: WGPUPowerPreference,
) -> WGPURequestAdapterOptions<u8> {
    WGPURequestAdapterOptions {
        powerPreference,
        forceFallbackAdapter: 7,
        backendType,
        compatibleSurface: Some(9),
    }
}

fn searched(backend: WGPUBackendType) -> u32 {
    let asked = options(backend, WGPUPowerPreference::LowPower);
    match wgpuInstanceRequestAdapter(Some(asked), "callback", user()).0 {
        AdapterRequest::Search { backends, .. } => backends,
        AdapterRequest::Refuse { .. } => panic!("refused"),
    }
}

fn preferred(code: WGPUPowerPreference) -> PowerPreference {
    let asked = options(WGPUBackendType::Undefined, code);
    match wgpuInstanceRequestAdapter(Some(asked), "callback", user()).0 {
        AdapterRequest::Search { options, .. } => options.power_preference,
        AdapterRequest::Refuse { .. } => panic!("refused"),
    }
}

#[test]
fn capabilities_deny_timed_waits() {
    let mut capabilities =
        WGPUInstanceCapabilities { timedWaitAnyEnable: 1, timedWaitAnyMaxCount: 64 };
    assert_eq!(wgpuGetInstanceCapabilities(&mut capabilities), WGPUStatus::Success);
    assert_eq!(
        capabilities,
        WGPUInstanceCapabilities { timedWaitAnyEnable: 0, timedWaitAnyMaxCount: 0 }
    );
}

#[test]
fn instance_without_descriptor_is_the_default_one() {
    let none: Option<&WGPUInstanceDescriptor<u8>> = None;
    let desc = wgpuCreateInstance(none, |_: &WGPUInstanceDescriptor<u8>| -> InstanceDescriptor {
        panic!("nothing to convert")
    });
    let expected = wgpu_types::InstanceDescriptor::default();
    assert_eq!(desc.backends, wgpu_types::Backends::all().bits());
    assert_eq!(desc.backends, expected.backends.bits());
    assert_eq!(desc.flags, expected.flags.bits());
    assert!(desc.flags == 0x20 || desc.flags == 0x23);
    assert_eq!(desc.for_resource_creation, None);
    assert_eq!(desc.for_device_loss, None);
    let options = desc.backend_options;
    assert_eq!(options.gles_minor_version, Gles3MinorVersion::Automatic);
    assert_eq!(options.fence_behavior, GlFenceBehavior::Normal);
    assert!(matches!(options.shader_compiler, Dx12Compiler::Fxc));
    assert!(!options.noop_enable);
    let gl = expected.backend_options.gl;
    assert_eq!(gl.gles_minor_version, wgpu_types::Gles3MinorVersion::Automatic);
    assert_eq!(gl.fence_behavior, wgpu_types::GlFenceBehavior::Normal);
}

#[test]
fn instance_with_descriptor_is_the_converted_one() {
    let descriptor = WGPUInstanceDescriptor {
        features: WGPUInstanceCapabilities { timedWaitAnyEnable: 0, timedWaitAnyMaxCount: 0 },
        extras: 4u32,
    };
    let desc = wgpuCreateInstance(
        Some(&descriptor),
        |d: &WGPUInstanceDescriptor<u32>| InstanceDescriptor {
            backends: d.extras,
            flags: 1,
            for_resource_creation: Some(50),
            for_device_loss: Some(90),
            backend_options: BackendOptions {
                gles_minor_version: Gles3MinorVersion::Version1,
                fence_behavior: GlFenceBehavior::AutoFinish,
                shader_compiler: Dx12Compiler::StaticDxc,
                noop_enable: true,
            },
        },
    );
    assert_eq!(desc.backends, 4);
    assert_eq!(desc.for_resource_creation, Some(50));
    assert_eq!(desc.for_device_loss, Some(90));
    assert_eq!(desc.backend_options.gles_minor_version, Gles3MinorVersion::Version1);
    assert_eq!(desc.backend_options.fence_behavior, GlFenceBehavior::AutoFinish);
    assert!(matches!(desc.backend_options.shader_compiler, Dx12Compiler::StaticDxc));
    assert!(desc.backend_options.noop_enable);
}

#[test]
fn backend_types_name_backends() {
    assert_eq!(searched(WGPUBackendType::Undefined), wgpu_types::Backends::all().bits());
    assert_eq!(searched(WGPUBackendType::Undefined), 0x3f);
    assert_eq!(searched(WGPUBackendType::Null), 0);
    assert_eq!(searched(WGPUBackendType::WebGPU), wgpu_types::Backends::BROWSER_WEBGPU.bits());
    assert_eq!(searched(WGPUBackendType::D3D12), wgpu_types::Backends::DX12.bits());
    assert_eq!(searched(WGPUBackendType::D3D12), 8);
    assert_eq!(searched(WGPUBackendType::Metal), wgpu_types::Backends::METAL.bits());
    assert_eq!(searched(WGPUBackendType::Metal), 4);
    assert_eq!(searched(WGPUBackendType::Vulkan), wgpu_types::Backends::VULKAN.bits());
    assert_eq!(searched(WGPUBackendType::Vulkan), 2);
    assert_eq!(searched(WGPUBackendType::OpenGL), wgpu_types::Backends::GL.bits());
    assert_eq!(searched(WGPUBackendType::OpenGLES), 16);
    assert_eq!(searched(WGPUBackendType::WebGPU), 32);
}

#[test]
fn every_searched_backend_exists() {
    for backend in [
        WGPUBackendType::Undefined,
        WGPUBackendType::Null,
        WGPUBackendType::WebGPU,
        WGPUBackendType::D3D12,
        WGPUBackendType::Metal,
        WGPUBackendType::Vulkan,
        WGPUBackendType::OpenGL,
        WGPUBackendType::OpenGLES,
    ] {
        assert!(wgpu_types::Backends::from_bits(searched(backend)).is_some());
    }
}

#[test]
fn power_preferences_are_passed_on() {
    assert_eq!(preferred(WGPUPowerPreference::LowPower), PowerPreference::LowPower);
    assert_eq!(preferred(WGPUPowerPreference::HighPerformance), PowerPreference::HighPerformance);
    assert_eq!(preferred(WGPUPowerPreference::Other(0)), PowerPreference::NoPreference);
    assert_eq!(preferred(WGPUPowerPreference::Other(77)), PowerPreference::NoPreference);
}

#[test]
fn adapter_options_are_passed_on() {
    let mut asked = options(WGPUBackendType::Vulkan, WGPUPowerPreference::LowPower);
    let (request, future) = wgpuInstanceRequestAdapter(Some(asked), "callback", user());
    assert_eq!(future, WGPUFuture { id: 0 });
    match request {
        AdapterRequest::Search { options, .. } => {
            assert!(options.force_fallback_adapter);
            assert_eq!(options.compatible_surface, Some(9));
        }
        AdapterRequest::Refuse { .. } => panic!("refused"),
    }
    asked = options(WGPUBackendType::Vulkan, WGPUPowerPreference::LowPower);
    asked.forceFallbackAdapter = 0;
    match wgpuInstanceRequestAdapter(Some(asked), "callback", user()).0 {
        AdapterRequest::Search { options, .. } => assert!(!options.force_fallback_adapter),
        AdapterRequest::Refuse { .. } => panic!("refused"),
    }
}

#[test]
fn request_without_options_searches_everywhere() {
    let none: Option<WGPURequestAdapterOptions<u8>> = None;
    let (request, future) = wgpuInstanceRequestAdapter(none, "callback", user());
    assert_eq!(future, WGPUFuture::null());
    match request {
        AdapterRequest::Search { options, backends } => {
            assert_eq!(backends, 0x3f);
            assert_eq!(options.power_preference, PowerPreference::NoPreference);
            assert!(!options.force_fallback_adapter);
            assert_eq!(options.compatible_surface, None);
        }
        AdapterRequest::Refuse { .. } => panic!("refused"),
    }
}

#[test]
fn direct3d_11_is_refused() {
    let asked = options(WGPUBackendType::D3D11, WGPUPowerPreference::LowPower);
    let (request, future) = wgpuInstanceRequestAdapter(Some(asked), "callback", user());
    assert_eq!(future, WGPUFuture::null());
    match request {
        AdapterRequest::Refuse { callback, status, message, userdata } => {
            assert_eq!(callback, "callback");
            assert_eq!(status, WGPURequestAdapterStatus::Error);
            assert_eq!(message, "unsupported backend type: d3d11");
            assert_eq!(userdata, user());
        }
        AdapterRequest::Search { .. } => panic!("searched"),
    }
}

#[test]
fn adapters_are_counted_and_written() {
    let found: Vec<u64> = vec![5, 6];
    assert_eq!(wgpuInstanceEnumerateAdapters(&found, None), 2);
    let mut adapters: Vec<u64> = vec![1, 2, 3];
    assert_eq!(wgpuInstanceEnumerateAdapters(&found, Some(&mut adapters)), 2);
    assert_eq!(adapters, vec![5, 6, 3]);
    let nothing: Vec<u64> = vec![];
    assert_eq!(wgpuInstanceEnumerateAdapters(&nothing, Some(&mut adapters)), 0);
    assert_eq!(adapters, vec![5, 6, 3]);
}

#[test]
fn all_backends_are_enumerated_unless_some_are_named() {
    assert_eq!(enumerated_backends(None, |_: u64| 1), 0x3f);
    assert_eq!(enumerated_backends(Some(3), |flags: u64| (flags as u32) << 1), 6);
}

const NO_SURFACE: &str = "Error in wgpuInstanceCreateSurface: Validation Error\n\nCaused by:\n";

type Params = CreateSurfaceParams<&'static str, &'static str, u8, u16>;
type Target = SurfaceTarget<&'static str, &'static str, u8, u16>;

fn targets() -> Vec<(Params, &'static str)> {
    vec![
        (CreateSurfaceParams::Raw(("display", "window")), "display/window"),
        (CreateSurfaceParams::Metal(3), "layer 3"),
        (CreateSurfaceParams::SwapChainPanel(4), "panel 4"),
    ]
}

#[test]
fn surface_is_made_for_the_target() {
    for (params, name) in targets() {
        let surface = wgpuInstanceCreateSurface(params, |target: Target| -> Result<String, u8> {
            match target {
                SurfaceTarget::RawHandle { raw_display_handle, raw_window_handle } => {
                    Ok(format!("{raw_display_handle}/{raw_window_handle}"))
                }
                SurfaceTarget::MetalLayer { layer } => Ok(format!("layer {layer}")),
                SurfaceTarget::SwapChainPanel { panel } => Ok(format!("panel {panel}")),
            }
        });
        assert_eq!(surface, Ok(name.to_string()));
    }
}

#[test]
fn surface_that_cannot_be_made_is_fatal() {
    for (params, _) in targets() {
        let surface =
            wgpuInstanceCreateSurface(params, |_: Target| -> Result<u8, &str> { Err("no") });
        assert_eq!(surface, Err(NO_SURFACE.to_string()));
    }
}
