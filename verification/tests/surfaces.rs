use std::rc::Rc;

use wgpu_native::native::{NativeArray, WGPUStatus, WGPUSurfaceGetCurrentTextureStatus};
use wgpu_native::surface::{
    SurfaceCapabilities, SurfaceData, SurfaceOutput, SurfaceStatus, WGPUSurfaceCapabilities,
    WGPUSurfaceTexture,
};
use wgpu_native::texture::{TextureData, WGPUExtent3D};
use wgpu_native::{
    wgpuSurfaceCapabilitiesFreeMembers, wgpuSurfaceGetCapabilities, wgpuSurfaceGetCurrentTexture,
    wgpuSurfacePresent, wgpuSurfaceUnconfigure, WGPUSurfaceImpl,
};

const FATAL: &str = "Error in wgpuSurfaceGetCurrentTexture: Validation Error\n\nCaused by:\n";

fn texture_data() -> TextureData {
    TextureData {
        usage: 16,
        dimension: 2,
        size: WGPUExtent3D { width: 640, height: 480, depthOrArrayLayers: 1 },
        format: 23,
        mip_level_count: 1,
        sample_count: 1,
    }
}

fn configured() -> WGPUSurfaceImpl<&'static str, Rc<u8>> {
    WGPUSurfaceImpl {
        id: 42,
        data: Some(SurfaceData { error_sink: "sink", texture_data: texture_data() }),
        has_surface_presented: true,
        presented_flag: Rc::new(7),
    }
}

fn blank() -> WGPUSurfaceTexture<&'static str, Rc<u8>> {
    WGPUSurfaceTexture { status: WGPUSurfaceGetCurrentTextureStatus::Error, texture: None }
}

fn stale() -> WGPUSurfaceCapabilities<Vec<u32>> {
    WGPUSurfaceCapabilities {
        usages: 99,
        formats: NativeArray { data: Some(vec![9]), count: 1 },
        presentModes: NativeArray { data: Some(vec![9]), count: 1 },
        alphaModes: NativeArray { data: Some(vec![9]), count: 1 },
    }
}

fn get_status(status: SurfaceStatus) -> WGPUSurfaceGetCurrentTextureStatus {
    let mut surface = configured();
    let mut shown = blank();
    let result = wgpuSurfaceGetCurrentTexture(
        &mut surface,
        &mut shown,
        |_: u64| -> Result<SurfaceOutput, ()> { Ok(SurfaceOutput { status, texture: None }) },
    );
    assert_eq!(result, Ok(()));
    assert!(shown.texture.is_none());
    assert!(!surface.has_surface_presented);
    shown.status
}

#[test]
fn capabilities_leave_unknown_codes_out() {
    let mut capabilities = stale();
    let caps = SurfaceCapabilities {
        formats: vec![1u8, 2, 3, 4],
        present_modes: vec![1u16, 2],
        alpha_modes: vec!['a', 'b'],
        usages: 5u8,
    };
    let status = wgpuSurfaceGetCapabilities(
        caps,
        &mut capabilities,
        |u: u8| u as u64 + 1,
        |f: u8| if f % 2 == 0 { Some(f as u32 * 10) } else { None },
        |m: u16| if m == 1 { Some(7) } else { None },
        |a: char| a as u32,
    );
    assert_eq!(status, WGPUStatus::Success);
    assert_eq!(capabilities.usages, 6);
    assert_eq!(capabilities.formats.data, Some(vec![20, 40]));
    assert_eq!(capabilities.formats.count, 2);
    assert_eq!(capabilities.presentModes.data, Some(vec![7]));
    assert_eq!(capabilities.presentModes.count, 1);
    assert_eq!(capabilities.alphaModes.data, Some(vec![97, 98]));
    assert_eq!(capabilities.alphaModes.count, 2);
    let members = wgpuSurfaceCapabilitiesFreeMembers(capabilities);
    assert_eq!(members.formats, Some((vec![20, 40], 2)));
    assert_eq!(members.presentModes, Some((vec![7], 1)));
    assert_eq!(members.alphaModes, Some((vec![97, 98], 2)));
}

#[test]
fn empty_capabilities_are_null() {
    let mut capabilities = stale();
    let caps: SurfaceCapabilities<u8, u8, u8, ()> = SurfaceCapabilities {
        formats: vec![1],
        present_modes: vec![],
        alpha_modes: vec![],
        usages: (),
    };
    wgpuSurfaceGetCapabilities(
        caps,
        &mut capabilities,
        |_: ()| 0,
        |_: u8| None,
        |_: u8| Some(1),
        |_: u8| 1,
    );
    assert_eq!(capabilities.usages, 0);
    assert_eq!(capabilities.formats.data, None);
    assert_eq!(capabilities.formats.count, 0);
    assert_eq!(capabilities.presentModes.data, None);
    assert_eq!(capabilities.alphaModes.data, None);
    let members = wgpuSurfaceCapabilitiesFreeMembers(capabilities);
    assert_eq!(members.formats, None);
    assert_eq!(members.presentModes, None);
    assert_eq!(members.alphaModes, None);
}

#[test]
fn null_or_empty_arrays_are_not_freed() {
    let members = wgpuSurfaceCapabilitiesFreeMembers(WGPUSurfaceCapabilities {
        usages: 0,
        formats: NativeArray { data: None, count: 4 },
        presentModes: NativeArray { data: Some('p'), count: 0 },
        alphaModes: NativeArray { data: Some('q'), count: 3 },
    });
    assert_eq!(members.formats, None);
    assert_eq!(members.presentModes, None);
    assert_eq!(members.alphaModes, Some(('q', 3)));
}

#[test]
fn statuses_have_native_codes() {
    assert_eq!(
        get_status(SurfaceStatus::Good),
        WGPUSurfaceGetCurrentTextureStatus::SuccessOptimal
    );
    assert_eq!(
        get_status(SurfaceStatus::Suboptimal),
        WGPUSurfaceGetCurrentTextureStatus::SuccessSuboptimal
    );
    assert_eq!(get_status(SurfaceStatus::Timeout), WGPUSurfaceGetCurrentTextureStatus::Timeout);
    assert_eq!(get_status(SurfaceStatus::Outdated), WGPUSurfaceGetCurrentTextureStatus::Outdated);
    assert_eq!(get_status(SurfaceStatus::Lost), WGPUSurfaceGetCurrentTextureStatus::Lost);
    assert_eq!(get_status(SurfaceStatus::Unknown), WGPUSurfaceGetCurrentTextureStatus::Error);
}

#[test]
fn texture_is_handed_out_with_the_data_of_the_surface() {
    let mut surface = configured();
    let mut shown = blank();
    let result = wgpuSurfaceGetCurrentTexture(
        &mut surface,
        &mut shown,
        |id: u64| -> Result<SurfaceOutput, ()> {
            Ok(SurfaceOutput { status: SurfaceStatus::Good, texture: Some(id + 1) })
        },
    );
    assert_eq!(result, Ok(()));
    let texture = shown.texture.unwrap();
    assert_eq!(texture.id, 43);
    assert_eq!(texture.surface_id, Some(42));
    assert_eq!(texture.data, texture_data());
    assert_eq!(texture.error_sink, "sink");
    assert!(Rc::ptr_eq(&texture.presented_flag, &surface.presented_flag));
    assert!(surface.data.is_some());
    assert!(!surface.has_surface_presented);
}

#[test]
fn surface_error_is_fatal() {
    let mut surface = configured();
    let mut shown = blank();
    let result = wgpuSurfaceGetCurrentTexture(
        &mut surface,
        &mut shown,
        |_: u64| -> Result<SurfaceOutput, &str> { Err("lost") },
    );
    assert_eq!(result, Err(FATAL.to_string()));
    assert!(surface.has_surface_presented);
    assert!(shown.texture.is_none());
}

#[test]
fn unconfigured_surface_is_fatal() {
    let mut surface = configured();
    wgpuSurfaceUnconfigure(&mut surface);
    assert!(surface.data.is_none());
    assert!(!surface.has_surface_presented);
    assert_eq!(surface.id, 42);
    let mut shown = blank();
    let result = wgpuSurfaceGetCurrentTexture(
        &mut surface,
        &mut shown,
        |_: u64| -> Result<SurfaceOutput, ()> { panic!("not asked for") },
    );
    assert_eq!(result, Err(FATAL.to_string()));
}

#[test]
fn presentation_cycle() {
    let mut surface = configured();
    surface.has_surface_presented = false;
    let failed = wgpuSurfacePresent(&mut surface, |_: u64| -> Result<(), &str> { Err("no") });
    assert_eq!(failed, WGPUStatus::Error);
    assert!(!surface.has_surface_presented);
    let done = wgpuSurfacePresent(&mut surface, |id: u64| -> Result<u64, ()> {
        assert_eq!(id, 42);
        Ok(id)
    });
    assert_eq!(done, WGPUStatus::Success);
    assert!(surface.has_surface_presented);
    let failed = wgpuSurfacePresent(&mut surface, |_: u64| -> Result<(), &str> { Err("no") });
    assert_eq!(failed, WGPUStatus::Error);
    assert!(surface.has_surface_presented);
    assert!(surface.data.is_some());
    wgpuSurfaceGetCurrentTexture(
        &mut surface,
        &mut blank(),
        |_: u64| -> Result<SurfaceOutput, ()> {
            Ok(SurfaceOutput { status: SurfaceStatus::Good, texture: Some(1) })
        },
    )
    .unwrap();
    assert!(!surface.has_surface_presented);
}

#[test]
fn unconfigured_surface_does_not_count_as_presented() {
    let mut surface = configured();
    let done = wgpuSurfacePresent(&mut surface, |id: u64| -> Result<u64, ()> { Ok(id) });
    assert_eq!(done, WGPUStatus::Success);
    wgpuSurfaceUnconfigure(&mut surface);
    assert!(!surface.has_surface_presented);
    assert!(surface.data.is_none());
}
