//! Verified core of a C interface to the `wgpu` graphics library.
//!
//! Each entry point of the C interface has its decisions here: what it makes of the structs and
//! codes that it is given, what it asks of the graphics library, and what it answers. Calls into
//! a device, an adapter or a window system come in as functions, and so do the tables that turn
//! native codes into values of the graphics library. Arguments that an entry point panics on, its
//! `requires` leaves out; where a call into the graphics library fails for good, the error is the
//! text to panic with.
#![allow(non_snake_case)]

pub mod adapter;
pub mod buffer;
pub mod conv;
pub mod device;
pub mod error;
pub mod instance;
pub mod native;
pub mod outside;
pub mod query;
pub mod queue;
pub mod surface;
pub mod texture;

pub use adapter::{
    return_features, wgpuAdapterGetFeatures, wgpuAdapterGetInfo, wgpuAdapterGetLimits,
    wgpuAdapterHasFeature, wgpuAdapterInfoFreeMembers, wgpuDeviceGetFeatures, wgpuDeviceGetLimits,
    wgpuDeviceHasFeature, wgpuSupportedFeaturesFreeMembers,
};
pub use buffer::{
    map_size, wgpuBufferGetConstMappedRange, wgpuBufferGetMappedRange, wgpuBufferMapAsync,
    wgpuDeviceCreateBuffer,
};
pub use device::{
    drop_device, wgpuDeviceCreateBindGroup, wgpuDeviceCreateBindGroupLayout,
    wgpuDeviceCreateCommandEncoder, wgpuDeviceCreateSampler, wgpuDeviceCreateShaderModule,
    wgpuDeviceCreateShaderModuleSpirV, wgpuDevicePoll, WGPUShaderModuleImpl,
};
pub use error::{
    default_device_lost_handler, default_uncaptured_error_handler, format_error, handle_error,
    handle_error_fatal, Error, ErrorFilter, ErrorScope, ErrorSinkRaw,
};
pub use instance::{
    enumerated_backends, wgpuCreateInstance, wgpuGetInstanceCapabilities,
    wgpuInstanceCreateSurface, wgpuInstanceEnumerateAdapters, wgpuInstanceRequestAdapter,
};
pub use query::{wgpuQuerySetGetCount, wgpuQuerySetGetType, WGPUQuerySetImpl};
pub use queue::{
    open_for_submission, submitted_ids, wgpuQueueOnSubmittedWorkDone, wgpuQueueSubmit,
    wgpuQueueSubmitForIndex, wgpuQueueWriteBuffer, wgpuQueueWriteTexture,
};
pub use surface::{
    wgpuSurfaceCapabilitiesFreeMembers, wgpuSurfaceGetCapabilities, wgpuSurfaceGetCurrentTexture,
    wgpuSurfacePresent, wgpuSurfaceUnconfigure, WGPUSurfaceImpl,
};
pub use texture::{
    wgpuDeviceCreateTexture, wgpuTextureCreateView, wgpuTextureDestroy,
    wgpuTextureGetDepthOrArrayLayers, wgpuTextureGetDimension, wgpuTextureGetFormat,
    wgpuTextureGetHeight, wgpuTextureGetMipLevelCount, wgpuTextureGetSampleCount,
    wgpuTextureGetUsage, wgpuTextureGetWidth, WGPUTextureImpl, WGPUTextureViewImpl,
};
