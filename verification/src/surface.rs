//! Surfaces: their capabilities, and the textures that they hand out for presentation.

use vstd::prelude::*;

use crate::conv::{filter_map_each, map_each};
use crate::error::{handle_error_fatal, value_or_fatal};
use crate::native::{
    NativeArray, WGPUCompositeAlphaMode, WGPUPresentMode, WGPUStatus,
    WGPUSurfaceGetCurrentTextureStatus, WGPUTextureFormat, WGPUTextureUsage,
};
use crate::texture::{TextureData, WGPUTextureImpl};

verus! {

/// What a surface can do with an adapter, as the graphics library tells it.
#[derive(Debug)]
pub struct SurfaceCapabilities<F, M, A, U> {
    pub formats: Vec<F>,
    pub present_modes: Vec<M>,
    pub alpha_modes: Vec<A>,
    pub usages: U,
}

/// What a surface can do with an adapter, in native codes. `P` is memory with codes in it.
#[derive(Debug)]
pub struct WGPUSurfaceCapabilities<P> {
    pub usages: WGPUTextureUsage,
    pub formats: NativeArray<P>,
    pub presentModes: NativeArray<P>,
    pub alphaModes: NativeArray<P>,
}

impl WGPUSurfaceCapabilities<Vec<u32>> {
    /// Each array counts its items, and is null if it has none.
    pub open spec fn wf(&self) -> bool {
        &&& self.formats.wf()
        &&& self.presentModes.wf()
        &&& self.alphaModes.wf()
        &&& self.formats.data is None <==> self.formats.contents().len() == 0
        &&& self.presentModes.data is None <==> self.presentModes.contents().len() == 0
        &&& self.alphaModes.data is None <==> self.alphaModes.contents().len() == 0
    }
}

/// Writes out what a surface can do. Formats and present modes without a native code are left
/// out; every alpha mode has one.
pub fn wgpuSurfaceGetCapabilities<
    F: Copy,
    M: Copy,
    A: Copy,
    U,
    ToUsage: Fn(U) -> WGPUTextureUsage,
    ToFormat: Fn(F) -> Option<WGPUTextureFormat>,
    ToPresentMode: Fn(M) -> Option<WGPUPresentMode>,
    ToAlphaMode: Fn(A) -> WGPUCompositeAlphaMode,
>(
    caps: SurfaceCapabilities<F, M, A, U>,
    capabilities: &mut WGPUSurfaceCapabilities<Vec<u32>>,
    to_native_texture_usage_flags: ToUsage,
    to_native_texture_format: ToFormat,
    to_native_present_mode: ToPresentMode,
    to_native_composite_alpha_mode: ToAlphaMode,
) -> (status: WGPUStatus)
    requires
        call_requires(to_native_texture_usage_flags, (caps.usages,)),
        forall|i: int|
            0 <= i < caps.formats@.len() ==> call_requires(
                to_native_texture_format,
                (#[trigger] caps.formats@[i],),
            ),
        forall|i: int|
            0 <= i < caps.present_modes@.len() ==> call_requires(
                to_native_present_mode,
                (#[trigger] caps.present_modes@[i],),
            ),
        forall|i: int|
            0 <= i < caps.alpha_modes@.len() ==> call_requires(
                to_native_composite_alpha_mode,
                (#[trigger] caps.alpha_modes@[i],),
            ),
    ensures
        status == WGPUStatus::Success,
        final(capabilities).wf(),
        final(capabilities).formats.data is None <==> final(capabilities).formats.count == 0,
        final(capabilities).formats.data matches Some(items) ==> items@
            == final(capabilities).formats.contents() && items@.len()
            == final(capabilities).formats.count,
        final(capabilities).presentModes.data is None <==> final(capabilities).presentModes.count
            == 0,
        final(capabilities).presentModes.data matches Some(items) ==> items@
            == final(capabilities).presentModes.contents() && items@.len()
            == final(capabilities).presentModes.count,
        final(capabilities).alphaModes.count == caps.alpha_modes@.len(),
        final(capabilities).alphaModes.data is None <==> caps.alpha_modes@.len() == 0,
        final(capabilities).alphaModes.data matches Some(items) ==> items@.len()
            == caps.alpha_modes@.len() && forall|i: int|
            0 <= i < caps.alpha_modes@.len() ==> #[trigger] call_ensures(
                to_native_composite_alpha_mode,
                (caps.alpha_modes@[i],),
                items@[i],
            ),
        call_ensures(
            to_native_texture_usage_flags,
            (caps.usages,),
            final(capabilities).usages,
        ),
        crate::conv::filter_mapped(
            to_native_texture_format,
            caps.formats@,
            final(capabilities).formats.contents(),
        ),
        crate::conv::filter_mapped(
            to_native_present_mode,
            caps.present_modes@,
            final(capabilities).presentModes.contents(),
        ),
        crate::conv::results(
            to_native_composite_alpha_mode,
            caps.alpha_modes@,
            final(capabilities).alphaModes.contents(),
        ),
{
    capabilities.usages = to_native_texture_usage_flags(caps.usages);
    // some texture formats have no native code: filter them out.
    let formats = filter_map_each(&to_native_texture_format, &caps.formats);
    capabilities.formats = NativeArray::null_if_empty(formats);
    let present_modes = filter_map_each(&to_native_present_mode, &caps.present_modes);
    capabilities.presentModes = NativeArray::null_if_empty(present_modes);
    let alpha_modes = map_each(&to_native_composite_alpha_mode, &caps.alpha_modes);
    capabilities.alphaModes = NativeArray::null_if_empty(alpha_modes);
    WGPUStatus::Success
}

/// The arrays of a capabilities struct that hold memory, each with the number of its items.
#[derive(Debug)]
pub struct SurfaceCapabilitiesMembers<P> {
    pub formats: Option<(P, usize)>,
    pub presentModes: Option<(P, usize)>,
    pub alphaModes: Option<(P, usize)>,
}

/// Takes the memory out of a capabilities struct, for its owner to free.
pub fn wgpuSurfaceCapabilitiesFreeMembers<P>(capabilities: WGPUSurfaceCapabilities<P>) -> (members:
    SurfaceCapabilitiesMembers<P>)
    ensures
        members.formats == capabilities.formats.owned(),
        members.presentModes == capabilities.presentModes.owned(),
        members.alphaModes == capabilities.alphaModes.owned(),
{
    SurfaceCapabilitiesMembers {
        formats: capabilities.formats.into_owned(),
        presentModes: capabilities.presentModes.into_owned(),
        alphaModes: capabilities.alphaModes.into_owned(),
    }
}

/// What a surface was configured with.
#[derive(Debug)]
pub struct SurfaceData<K> {
    pub error_sink: K,
    pub texture_data: TextureData,
}

/// A surface, by its number. It is configured while it has data. `K` is where errors go.
#[derive(Debug)]
pub struct WGPUSurfaceImpl<K, P> {
    pub id: u64,
    pub data: Option<SurfaceData<K>>,
    /// The last texture handed out was presented.
    pub has_surface_presented: bool,
    /// Where `has_surface_presented` is looked up by the textures handed out.
    pub presented_flag: P,
}

/// How a surface fared at giving out a texture.
#[derive(Clone, Copy, Debug, PartialEq, Eq, Structural)]
pub enum SurfaceStatus {
    Good,
    Suboptimal,
    Timeout,
    Outdated,
    Lost,
    Unknown,
}

/// What the graphics library gives out of a surface: the number of a texture, if there is one.
#[derive(Clone, Copy, Debug, PartialEq, Eq, Structural)]
pub struct SurfaceOutput {
    pub status: SurfaceStatus,
    pub texture: Option<u64>,
}

#[derive(Debug)]
pub struct WGPUSurfaceTexture<K, P> {
    pub status: WGPUSurfaceGetCurrentTextureStatus,
    pub texture: Option<WGPUTextureImpl<K, P>>,
}

pub open spec fn native_status(status: SurfaceStatus) -> WGPUSurfaceGetCurrentTextureStatus {
    match status {
        SurfaceStatus::Good => WGPUSurfaceGetCurrentTextureStatus::SuccessOptimal,
        SurfaceStatus::Suboptimal => WGPUSurfaceGetCurrentTextureStatus::SuccessSuboptimal,
        SurfaceStatus::Timeout => WGPUSurfaceGetCurrentTextureStatus::Timeout,
        SurfaceStatus::Outdated => WGPUSurfaceGetCurrentTextureStatus::Outdated,
        SurfaceStatus::Lost => WGPUSurfaceGetCurrentTextureStatus::Lost,
        SurfaceStatus::Unknown => WGPUSurfaceGetCurrentTextureStatus::Error,
    }
}

impl<K, P> WGPUSurfaceImpl<K, P> {
    /// The surface once it handed out a texture: nothing of it has been presented.
    pub open spec fn after_acquire(self) -> Self {
        WGPUSurfaceImpl { has_surface_presented: false, ..self }
    }

    /// The surface after an attempt to present.
    pub open spec fn after_present(self, status: WGPUStatus) -> Self {
        match status {
            WGPUStatus::Success => WGPUSurfaceImpl { has_surface_presented: true, ..self },
            WGPUStatus::Error => self,
        }
    }

    /// The surface without its configuration.
    pub open spec fn after_unconfigure(self) -> Self {
        WGPUSurfaceImpl { data: None, has_surface_presented: false, ..self }
    }
}

impl<K: Clone, P: Clone> WGPUSurfaceImpl<K, P> {
    /// The texture struct shows the output: its status, and if there is a texture a handle with the
    /// data, the sink and the flag of the surface.
    pub open spec fn shows(&self, output: SurfaceOutput, shown: WGPUSurfaceTexture<K, P>) -> bool {
        &&& shown.status == native_status(output.status)
        &&& match output.texture {
            Some(id) => {
                &&& self.data is Some
                &&& shown.texture is Some
                &&& shown.texture->0.id == id
                &&& cloned::<K>(self.data->0.error_sink, shown.texture->0.error_sink)
                &&& shown.texture->0.data == self.data->0.texture_data
                &&& shown.texture->0.surface_id == Some(self.id)
                &&& cloned::<P>(self.presented_flag, shown.texture->0.presented_flag)
            },
            None => shown.texture is None,
        }
    }
}

/// Hands out the texture that is drawn to next. A surface that is not configured has none; a
/// surface that cannot give any is beyond repair. Both errors carry what to panic with.
pub fn wgpuSurfaceGetCurrentTexture<
    K: Clone,
    P: Clone,
    E,
    Get: FnOnce(u64) -> Result<SurfaceOutput, E>,
>(
    surface: &mut WGPUSurfaceImpl<K, P>,
    surface_texture: &mut WGPUSurfaceTexture<K, P>,
    surface_get_current_texture: Get,
) -> (result: Result<(), String>)
    requires
        old(surface).data is Some ==> call_requires(
            surface_get_current_texture,
            (old(surface).id,),
        ),
    ensures
        old(surface).data is None ==> result is Err,
        old(surface).data is Some ==> exists|given: Result<SurfaceOutput, E>| #[trigger]
            call_ensures(surface_get_current_texture, (old(surface).id,), given) && match given {
                Ok(output) => {
                    &&& result is Ok
                    &&& old(surface).shows(output, *final(surface_texture))
                    &&& final(surface_texture).texture is Some <==> output.texture is Some
                    &&& output.texture matches Some(id) ==> {
                        &&& final(surface_texture).texture->0.id == id
                        &&& final(surface_texture).texture->0.data
                            == old(surface).data->0.texture_data
                        &&& final(surface_texture).texture->0.surface_id == Some(old(surface).id)
                        &&& cloned::<K>(
                            old(surface).data->0.error_sink,
                            final(surface_texture).texture->0.error_sink,
                        )
                        &&& cloned::<P>(
                            old(surface).presented_flag,
                            final(surface_texture).texture->0.presented_flag,
                        )
                    }
                },
                Err(_) => result is Err,
            },
        match result {
            Ok(()) => *final(surface) == old(surface).after_acquire() && *final(surface) == (
            WGPUSurfaceImpl { has_surface_presented: false, ..*old(surface) }),
            Err(text) => {
                &&& text@ == crate::error::fatal_report("wgpuSurfaceGetCurrentTexture"@)
                &&& *final(surface) == *old(surface)
                &&& *final(surface_texture) == *old(surface_texture)
            },
        },
{
    let output = match &surface.data {
        Some(_) => match value_or_fatal(
            surface_get_current_texture(surface.id),
            "wgpuSurfaceGetCurrentTexture",
        ) {
            Ok(output) => output,
            Err(text) => {
                return Err(text);
            },
        },
        None => {
            return Err(handle_error_fatal((), "wgpuSurfaceGetCurrentTexture"));
        },
    };
    surface.has_surface_presented = false;
    surface_texture.status = match output.status {
        SurfaceStatus::Good => WGPUSurfaceGetCurrentTextureStatus::SuccessOptimal,
        SurfaceStatus::Suboptimal => WGPUSurfaceGetCurrentTextureStatus::SuccessSuboptimal,
        SurfaceStatus::Timeout => WGPUSurfaceGetCurrentTextureStatus::Timeout,
        SurfaceStatus::Outdated => WGPUSurfaceGetCurrentTextureStatus::Outdated,
        SurfaceStatus::Lost => WGPUSurfaceGetCurrentTextureStatus::Lost,
        SurfaceStatus::Unknown => WGPUSurfaceGetCurrentTextureStatus::Error,
    };
    surface_texture.texture = match (output.texture, &surface.data) {
        (Some(id), Some(surface_data)) => Some(
            WGPUTextureImpl {
                id,
                error_sink: surface_data.error_sink.clone(),
                data: surface_data.texture_data,
                surface_id: Some(surface.id),
                presented_flag: surface.presented_flag.clone(),
            },
        ),
        _ => None,
    };
    Ok(())
}

/// Presents the texture handed out last. A failure leaves the surface as it was.
pub fn wgpuSurfacePresent<K, P, S, E, Present: FnOnce(u64) -> Result<S, E>>(
    surface: &mut WGPUSurfaceImpl<K, P>,
    surface_present: Present,
) -> (status: WGPUStatus)
    requires
        call_requires(surface_present, (old(surface).id,)),
    ensures
        exists|presented: Result<S, E>| #[trigger]
            call_ensures(surface_present, (old(surface).id,), presented) && match presented {
                Ok(_) => status == WGPUStatus::Success,
                Err(_) => status == WGPUStatus::Error,
            },
        *final(surface) == old(surface).after_present(status),
        status == WGPUStatus::Success ==> *final(surface) == (WGPUSurfaceImpl {
            has_surface_presented: true,
            ..*old(surface)
        }),
        status == WGPUStatus::Error ==> *final(surface) == *old(surface),
{
    match surface_present(surface.id) {
        Ok(_) => {
            surface.has_surface_presented = true;
            WGPUStatus::Success
        },
        Err(_) => WGPUStatus::Error,
    }
}

/// Drops the configuration of a surface.
pub fn wgpuSurfaceUnconfigure<K, P>(surface: &mut WGPUSurfaceImpl<K, P>)
    ensures
        *final(surface) == old(surface).after_unconfigure(),
        *final(surface) == (WGPUSurfaceImpl {
            data: None,
            has_surface_presented: false,
            ..*old(surface)
        }),
{
    surface.data = None;
    surface.has_surface_presented = false;
}

/// What is written out is what is given back: for every array with items their memory, with the
/// right count, and for an empty array nothing.
pub proof fn law_capabilities_are_freed(capabilities: WGPUSurfaceCapabilities<Vec<u32>>)
    requires
        capabilities.wf(),
    ensures
        capabilities.formats.owned() == match capabilities.formats.data {
            Some(items) => Some((items, items.len())),
            None => None,
        },
        capabilities.presentModes.owned() == match capabilities.presentModes.data {
            Some(items) => Some((items, items.len())),
            None => None,
        },
        capabilities.alphaModes.owned() == match capabilities.alphaModes.data {
            Some(items) => Some((items, items.len())),
            None => None,
        },
{
}

/// A surface counts as presented from a successful presentation until it hands out the next
/// texture or loses its configuration, and failed presentations change nothing.
pub proof fn law_presentation_cycle<K, P>(surface: WGPUSurfaceImpl<K, P>)
    ensures
        !surface.after_acquire().has_surface_presented,
        surface.after_acquire().after_present(WGPUStatus::Success).has_surface_presented,
        surface.after_present(WGPUStatus::Success).after_acquire() == surface.after_acquire(),
        !surface.after_unconfigure().has_surface_presented,
        surface.after_present(WGPUStatus::Success).after_unconfigure()
            == surface.after_unconfigure(),
        surface.after_present(WGPUStatus::Error) == surface,
{
}

/// Handing out and presenting textures keep the configuration of a surface. Without it, a surface
/// stays without it, and dropping it once more changes nothing.
pub proof fn law_configuration_is_kept<K, P>(
    surface: WGPUSurfaceImpl<K, P>,
    status: WGPUStatus,
)
    ensures
        surface.after_acquire().data == surface.data,
        surface.after_present(status).data == surface.data,
        surface.after_unconfigure().data is None,
        surface.after_unconfigure().after_present(status).data is None,
        surface.after_unconfigure().after_unconfigure() == surface.after_unconfigure(),
{
}

/// The status written out says whether the texture can be drawn to, and if not, why: each way that
/// a surface can fare has a status of its own.
pub proof fn law_statuses_are_told_apart(a: SurfaceStatus, b: SurfaceStatus)
    ensures
        native_status(a) == native_status(b) ==> a == b,
        native_status(a) == WGPUSurfaceGetCurrentTextureStatus::SuccessOptimal <==> a is Good,
        native_status(a) == WGPUSurfaceGetCurrentTextureStatus::SuccessSuboptimal <==> a
            is Suboptimal,
        native_status(a) == WGPUSurfaceGetCurrentTextureStatus::Timeout <==> a is Timeout,
        native_status(a) == WGPUSurfaceGetCurrentTextureStatus::Outdated <==> a is Outdated,
        native_status(a) == WGPUSurfaceGetCurrentTextureStatus::Lost <==> a is Lost,
        native_status(a) == WGPUSurfaceGetCurrentTextureStatus::Error <==> a is Unknown,
{
}

/// No texture is lost and none invented: whatever the status is, a texture is written out exactly
/// if the graphics library gave one, under the number that it gave, with the data, the sink, the
/// number and the flag of the surface.
pub proof fn law_given_texture_is_handed_out<K: Clone, P: Clone>(
    surface: WGPUSurfaceImpl<K, P>,
    output: SurfaceOutput,
    shown: WGPUSurfaceTexture<K, P>,
)
    requires
        surface.shows(output, shown),
    ensures
        shown.texture is Some <==> output.texture is Some,
        shown.texture matches Some(texture) ==> {
            &&& output.texture == Some(texture.id)
            &&& surface.data is Some
            &&& texture.data == surface.data->0.texture_data
            &&& texture.surface_id == Some(surface.id)
            &&& cloned::<K>(surface.data->0.error_sink, texture.error_sink)
            &&& cloned::<P>(surface.presented_flag, texture.presented_flag)
        },
        shown.status == WGPUSurfaceGetCurrentTextureStatus::SuccessOptimal <==> output.status
            is Good,
        shown.status == WGPUSurfaceGetCurrentTextureStatus::SuccessSuboptimal <==> output.status
            is Suboptimal,
        shown.status == WGPUSurfaceGetCurrentTextureStatus::Timeout <==> output.status is Timeout,
        shown.status == WGPUSurfaceGetCurrentTextureStatus::Outdated <==> output.status is Outdated,
        shown.status == WGPUSurfaceGetCurrentTextureStatus::Lost <==> output.status is Lost,
        shown.status == WGPUSurfaceGetCurrentTextureStatus::Error <==> output.status is Unknown,
{
    law_statuses_are_told_apart(output.status, output.status);
}

/// Whatever happens to a surface, it keeps its number and the place where its flag is looked up.
pub proof fn law_surface_stays_itself<K, P>(surface: WGPUSurfaceImpl<K, P>, status: WGPUStatus)
    ensures
        surface.after_acquire().id == surface.id,
        surface.after_acquire().presented_flag == surface.presented_flag,
        surface.after_present(status).id == surface.id,
        surface.after_present(status).presented_flag == surface.presented_flag,
        surface.after_unconfigure().id == surface.id,
        surface.after_unconfigure().presented_flag == surface.presented_flag,
{
}

/// In capabilities that were written out, a pointer is null exactly where the count is zero, and
/// the count is otherwise that of the items behind the pointer.
pub proof fn law_capabilities_count_their_items(capabilities: WGPUSurfaceCapabilities<Vec<u32>>)
    requires
        capabilities.wf(),
    ensures
        capabilities.formats.count == 0 <==> capabilities.formats.data is None,
        capabilities.formats.data matches Some(items) ==> items@.len() == capabilities.formats.count,
        capabilities.presentModes.count == 0 <==> capabilities.presentModes.data is None,
        capabilities.presentModes.data matches Some(items) ==> items@.len()
            == capabilities.presentModes.count,
        capabilities.alphaModes.count == 0 <==> capabilities.alphaModes.data is None,
        capabilities.alphaModes.data matches Some(items) ==> items@.len()
            == capabilities.alphaModes.count,
{
}

} // verus!
