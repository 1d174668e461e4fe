//! Devices: what is made with them, and how their work is polled.

use vstd::prelude::*;

use crate::conv::{make_slice, map_or};
use crate::error::{handle_error, value_or_fatal, ErrorSinkRaw};
use crate::outside::command_encoder_label_default;

verus! {

/// The bind group that the caller wants. Its layout is null or a handle.
#[derive(Debug)]
pub struct WGPUBindGroupDescriptor<H, N> {
    pub label: Option<String>,
    pub layout: Option<H>,
    pub entryCount: usize,
    pub entries: Vec<N>,
}

#[derive(Debug)]
pub struct BindGroupDescriptor<H, N> {
    pub label: Option<String>,
    pub layout: H,
    pub entries: Vec<N>,
}

/// The first items of a C array, each converted.
fn map_first<N, T, F: Fn(&N) -> T>(map: &F, items: &Vec<N>, count: usize) -> (out: Vec<T>)
    requires
        count <= items@.len(),
        forall|i: int| 0 <= i < count ==> call_requires(*map, (&#[trigger] items@[i],)),
    ensures
        out@.len() == count,
        forall|i: int| 0 <= i < count ==> #[trigger] call_ensures(*map, (&items@[i],), out@[i]),
{
    let mut out: Vec<T> = Vec::new();
    let mut i: usize = 0;
    while i < count
        invariant
            i <= count,
            count <= items@.len(),
            out@.len() == i,
            forall|j: int| 0 <= j < count ==> call_requires(*map, (&#[trigger] items@[j],)),
            forall|j: int| 0 <= j < i ==> #[trigger] call_ensures(*map, (&items@[j],), out@[j]),
        decreases count - i,
    {
        let value = map(&items[i]);
        out.push(value);
        i = i + 1;
    }
    out
}

/// The bind group to make. There has to be a layout.
pub fn wgpuDeviceCreateBindGroup<H, N, T, Convert: Fn(&N) -> T>(
    descriptor: WGPUBindGroupDescriptor<H, N>,
    map_bind_group_entry: Convert,
) -> (desc: BindGroupDescriptor<H, T>)
    requires
        descriptor.layout is Some,
        descriptor.entryCount <= descriptor.entries@.len(),
        forall|i: int|
            0 <= i < descriptor.entryCount ==> call_requires(
                map_bind_group_entry,
                (&#[trigger] descriptor.entries@[i],),
            ),
    ensures
        desc.label == descriptor.label,
        Some(desc.layout) == descriptor.layout,
        desc.entries@.len() == descriptor.entryCount,
        forall|i: int|
            0 <= i < descriptor.entryCount ==> #[trigger] call_ensures(
                map_bind_group_entry,
                (&descriptor.entries@[i],),
                desc.entries@[i],
            ),
{
    let entries = map_first(&map_bind_group_entry, &descriptor.entries, descriptor.entryCount);
    BindGroupDescriptor {
        label: descriptor.label,
        layout: descriptor.layout.unwrap(),
        entries,
    }
}

#[derive(Debug)]
pub struct WGPUBindGroupLayoutDescriptor<N> {
    pub label: Option<String>,
    pub entryCount: usize,
    pub entries: Vec<N>,
}

#[derive(Debug)]
pub struct BindGroupLayoutDescriptor<N> {
    pub label: Option<String>,
    pub entries: Vec<N>,
}

/// The bind group layout to make.
pub fn wgpuDeviceCreateBindGroupLayout<N, T, Convert: Fn(&N) -> T>(
    descriptor: WGPUBindGroupLayoutDescriptor<N>,
    map_bind_group_layout_entry: Convert,
) -> (desc: BindGroupLayoutDescriptor<T>)
    requires
        descriptor.entryCount <= descriptor.entries@.len(),
        forall|i: int|
            0 <= i < descriptor.entryCount ==> call_requires(
                map_bind_group_layout_entry,
                (&#[trigger] descriptor.entries@[i],),
            ),
    ensures
        desc.label == descriptor.label,
        desc.entries@.len() == descriptor.entryCount,
        forall|i: int|
            0 <= i < descriptor.entryCount ==> #[trigger] call_ensures(
                map_bind_group_layout_entry,
                (&descriptor.entries@[i],),
                desc.entries@[i],
            ),
{
    let entries = map_first(
        &map_bind_group_layout_entry,
        &descriptor.entries,
        descriptor.entryCount,
    );
    BindGroupLayoutDescriptor { label: descriptor.label, entries }
}

#[derive(Debug)]
pub struct WGPUCommandEncoderDescriptor {
    pub label: Option<String>,
}

#[derive(Debug)]
pub struct CommandEncoderDescriptor {
    pub label: Option<String>,
}

/// The command encoder to make. Without a descriptor it has no label.
pub fn wgpuDeviceCreateCommandEncoder(descriptor: Option<WGPUCommandEncoderDescriptor>) -> (desc:
    CommandEncoderDescriptor)
    ensures
        desc.label == match descriptor {
            Some(descriptor) => descriptor.label,
            None => None,
        },
{
    match descriptor {
        Some(descriptor) => CommandEncoderDescriptor { label: descriptor.label },
        None => CommandEncoderDescriptor { label: command_encoder_label_default() },
    }
}

#[derive(Clone, Copy, Debug, PartialEq, Eq, Structural)]
pub enum AddressMode {
    ClampToEdge,
    Repeat,
    MirrorRepeat,
    ClampToBorder,
}

#[derive(Clone, Copy, Debug, PartialEq, Eq, Structural)]
pub enum FilterMode {
    Nearest,
    Linear,
}

/// A level of detail, as the bits of a 32-bit floating point number.
pub type LodBits = u32;

/// The bits of 0.
pub const LOD_MIN: LodBits = 0x0000_0000;

/// The bits of 32.
pub const LOD_MAX: LodBits = 0x4200_0000;

/// The sampler that the caller wants, in native codes.
#[derive(Debug)]
pub struct WGPUSamplerDescriptor {
    pub label: Option<String>,
    pub addressModeU: u32,
    pub addressModeV: u32,
    pub addressModeW: u32,
    pub magFilter: u32,
    pub minFilter: u32,
    pub mipmapFilter: u32,
    pub lodMinClamp: LodBits,
    pub lodMaxClamp: LodBits,
    pub compare: u32,
    pub maxAnisotropy: u16,
}

/// A sampler. `C` compares depths, `B` is the color of a border.
#[derive(Debug)]
pub struct SamplerDescriptor<C, B> {
    pub label: Option<String>,
    pub address_mode_u: AddressMode,
    pub address_mode_v: AddressMode,
    pub address_mode_w: AddressMode,
    pub mag_filter: FilterMode,
    pub min_filter: FilterMode,
    pub mipmap_filter: FilterMode,
    pub lod_min_clamp: LodBits,
    pub lod_max_clamp: LodBits,
    pub compare: Option<C>,
    pub anisotropy_clamp: u16,
    pub border_color: Option<B>,
}

impl<C, B> SamplerDescriptor<C, B> {
    /// The sampler that is made without a descriptor.
    pub open spec fn default_sampler() -> SamplerDescriptor<C, B> {
        SamplerDescriptor {
            label: None,
            address_mode_u: AddressMode::ClampToEdge,
            address_mode_v: AddressMode::ClampToEdge,
            address_mode_w: AddressMode::ClampToEdge,
            mag_filter: FilterMode::Nearest,
            min_filter: FilterMode::Nearest,
            mipmap_filter: FilterMode::Nearest,
            lod_min_clamp: LOD_MIN,
            lod_max_clamp: LOD_MAX,
            compare: None,
            anisotropy_clamp: 1,
            border_color: None,
        }
    }

    /// The sampler is the one described: a mode or filter with an unknown code is the default
    /// one, and there is never a border color.
    pub open spec fn described<
        Address: Fn(u32) -> Option<AddressMode>,
        Filter: Fn(u32) -> Option<FilterMode>,
        Mipmap: Fn(u32) -> Option<FilterMode>,
        Compare: Fn(u32) -> Result<Option<C>, E>,
        E,
    >(
        &self,
        descriptor: WGPUSamplerDescriptor,
        map_address_mode: Address,
        map_filter_mode: Filter,
        map_mipmap_filter_mode: Mipmap,
        map_compare_function: Compare,
    ) -> bool {
        &&& self.label == descriptor.label
        &&& crate::conv::mapped_or(
            map_address_mode,
            descriptor.addressModeU,
            AddressMode::ClampToEdge,
            self.address_mode_u,
        )
        &&& crate::conv::mapped_or(
            map_address_mode,
            descriptor.addressModeV,
            AddressMode::ClampToEdge,
            self.address_mode_v,
        )
        &&& crate::conv::mapped_or(
            map_address_mode,
            descriptor.addressModeW,
            AddressMode::ClampToEdge,
            self.address_mode_w,
        )
        &&& crate::conv::mapped_or(
            map_filter_mode,
            descriptor.magFilter,
            FilterMode::Nearest,
            self.mag_filter,
        )
        &&& crate::conv::mapped_or(
            map_filter_mode,
            descriptor.minFilter,
            FilterMode::Nearest,
            self.min_filter,
        )
        &&& crate::conv::mapped_or(
            map_mipmap_filter_mode,
            descriptor.mipmapFilter,
            FilterMode::Nearest,
            self.mipmap_filter,
        )
        &&& self.lod_min_clamp == descriptor.lodMinClamp
        &&& self.lod_max_clamp == descriptor.lodMaxClamp
        &&& call_ensures(map_compare_function, (descriptor.compare,), Ok::<Option<C>, E>(self.compare))
        &&& self.anisotropy_clamp == descriptor.maxAnisotropy
        &&& self.border_color is None
    }
}

/// The sampler to make. The comparison of a descriptor has to be a known one.
pub fn wgpuDeviceCreateSampler<
    C,
    B,
    E,
    Address: Fn(u32) -> Option<AddressMode>,
    Filter: Fn(u32) -> Option<FilterMode>,
    Mipmap: Fn(u32) -> Option<FilterMode>,
    Compare: Fn(u32) -> Result<Option<C>, E>,
>(
    descriptor: Option<WGPUSamplerDescriptor>,
    map_address_mode: Address,
    map_filter_mode: Filter,
    map_mipmap_filter_mode: Mipmap,
    map_compare_function: Compare,
) -> (desc: SamplerDescriptor<C, B>)
    requires
        descriptor matches Some(descriptor) ==> {
            &&& call_requires(map_address_mode, (descriptor.addressModeU,))
            &&& call_requires(map_address_mode, (descriptor.addressModeV,))
            &&& call_requires(map_address_mode, (descriptor.addressModeW,))
            &&& call_requires(map_filter_mode, (descriptor.magFilter,))
            &&& call_requires(map_filter_mode, (descriptor.minFilter,))
            &&& call_requires(map_mipmap_filter_mode, (descriptor.mipmapFilter,))
            &&& call_requires(map_compare_function, (descriptor.compare,))
            &&& forall|r: Result<Option<C>, E>| #[trigger]
                call_ensures(map_compare_function, (descriptor.compare,), r) ==> r is Ok
        },
    ensures
        match descriptor {
            Some(descriptor) => desc.described(
                descriptor,
                map_address_mode,
                map_filter_mode,
                map_mipmap_filter_mode,
                map_compare_function,
            ),
            None => desc == SamplerDescriptor::<C, B>::default_sampler(),
        },
        match descriptor {
            Some(descriptor) => {
                &&& call_ensures(map_address_mode, (descriptor.addressModeU,), Some(desc.address_mode_u)) || (call_ensures(
                    map_address_mode,
                    (descriptor.addressModeU,),
                    None,
                ) && desc.address_mode_u == AddressMode::ClampToEdge)
                &&& call_ensures(map_address_mode, (descriptor.addressModeV,), Some(desc.address_mode_v)) || (call_ensures(
                    map_address_mode,
                    (descriptor.addressModeV,),
                    None,
                ) && desc.address_mode_v == AddressMode::ClampToEdge)
                &&& call_ensures(map_address_mode, (descriptor.addressModeW,), Some(desc.address_mode_w)) || (call_ensures(
                    map_address_mode,
                    (descriptor.addressModeW,),
                    None,
                ) && desc.address_mode_w == AddressMode::ClampToEdge)
                &&& call_ensures(map_filter_mode, (descriptor.magFilter,), Some(desc.mag_filter)) || (call_ensures(
                    map_filter_mode,
                    (descriptor.magFilter,),
                    None,
                ) && desc.mag_filter == FilterMode::Nearest)
                &&& call_ensures(map_filter_mode, (descriptor.minFilter,), Some(desc.min_filter)) || (call_ensures(
                    map_filter_mode,
                    (descriptor.minFilter,),
                    None,
                ) && desc.min_filter == FilterMode::Nearest)
                &&& call_ensures(map_mipmap_filter_mode, (descriptor.mipmapFilter,), Some(desc.mipmap_filter)) || (call_ensures(
                    map_mipmap_filter_mode,
                    (descriptor.mipmapFilter,),
                    None,
                ) && desc.mipmap_filter == FilterMode::Nearest)
                &&& desc.label == descriptor.label
                &&& desc.lod_min_clamp == descriptor.lodMinClamp
                &&& desc.lod_max_clamp == descriptor.lodMaxClamp
                &&& call_ensures(map_compare_function, (descriptor.compare,), Ok::<Option<C>, E>(desc.compare))
                &&& desc.anisotropy_clamp == descriptor.maxAnisotropy
                &&& desc.border_color is None
            },
            None => {
                &&& desc.label is None
                &&& desc.address_mode_u == AddressMode::ClampToEdge
                &&& desc.address_mode_v == AddressMode::ClampToEdge
                &&& desc.address_mode_w == AddressMode::ClampToEdge
                &&& desc.mag_filter == FilterMode::Nearest
                &&& desc.min_filter == FilterMode::Nearest
                &&& desc.mipmap_filter == FilterMode::Nearest
                &&& desc.lod_min_clamp == 0
                &&& desc.lod_max_clamp == 0x4200_0000
                &&& desc.compare is None
                &&& desc.anisotropy_clamp == 1
                &&& desc.border_color is None
            },
        },
{
    match descriptor {
        Some(descriptor) => {
            let compare = match map_compare_function(descriptor.compare) {
                Ok(compare) => compare,
                Err(_) => None,
            };
            SamplerDescriptor {
                label: descriptor.label,
                address_mode_u: map_or(
                    &map_address_mode,
                    descriptor.addressModeU,
                    AddressMode::ClampToEdge,
                ),
                address_mode_v: map_or(
                    &map_address_mode,
                    descriptor.addressModeV,
                    AddressMode::ClampToEdge,
                ),
                address_mode_w: map_or(
                    &map_address_mode,
                    descriptor.addressModeW,
                    AddressMode::ClampToEdge,
                ),
                mag_filter: map_or(&map_filter_mode, descriptor.magFilter, FilterMode::Nearest),
                min_filter: map_or(&map_filter_mode, descriptor.minFilter, FilterMode::Nearest),
                mipmap_filter: map_or(
                    &map_mipmap_filter_mode,
                    descriptor.mipmapFilter,
                    FilterMode::Nearest,
                ),
                lod_min_clamp: descriptor.lodMinClamp,
                lod_max_clamp: descriptor.lodMaxClamp,
                compare,
                anisotropy_clamp: descriptor.maxAnisotropy,
                border_color: None,
            }
        },
        None => SamplerDescriptor {
            label: None,
            address_mode_u: AddressMode::ClampToEdge,
            address_mode_v: AddressMode::ClampToEdge,
            address_mode_w: AddressMode::ClampToEdge,
            mag_filter: FilterMode::Nearest,
            min_filter: FilterMode::Nearest,
            mipmap_filter: FilterMode::Nearest,
            lod_min_clamp: LOD_MIN,
            lod_max_clamp: LOD_MAX,
            compare: None,
            anisotropy_clamp: 1,
            border_color: None,
        },
    }
}

#[derive(Debug)]
pub struct ShaderModuleDescriptor<S> {
    pub label: Option<String>,
    pub source: S,
}

/// The shader module to make. Its source has to be one that was understood.
pub fn wgpuDeviceCreateShaderModule<S, E>(
    label: Option<String>,
    source: Result<S, E>,
) -> (desc: ShaderModuleDescriptor<S>)
    requires
        source is Ok,
    ensures
        desc.label == label,
        Ok::<S, E>(desc.source) == source,
{
    ShaderModuleDescriptor { label, source: source.ok().unwrap() }
}

/// A shader module in SPIR-V that the caller wants: the first words of `source`.
#[derive(Debug)]
pub struct WGPUShaderModuleDescriptorSpirV {
    pub label: Option<String>,
    pub sourceSize: u32,
    pub source: Vec<u32>,
}

#[derive(Clone, Copy, Debug)]
pub struct ShaderModuleDescriptorSpirV<'a> {
    pub label: Option<&'a str>,
    pub source: &'a [u32],
}

/// A shader module, by its number. One that could not be made has none.
#[derive(Clone, Copy, Debug, PartialEq, Eq, Structural)]
pub struct WGPUShaderModuleImpl {
    pub id: Option<u64>,
}

/// The module is the one with the label of the descriptor, and with the words that it counts.
pub open spec fn is_spirv(
    descriptor: WGPUShaderModuleDescriptorSpirV,
    desc: ShaderModuleDescriptorSpirV<'_>,
) -> bool {
    &&& match (descriptor.label, desc.label) {
        (Some(label), Some(shown)) => shown@ == label@,
        (None, None) => true,
        _ => false,
    }
    &&& desc.source@ == descriptor.source@.take(descriptor.sourceSize as int)
}

/// The shader module to make from SPIR-V.
pub fn spirv_descriptor<'a>(descriptor: &'a WGPUShaderModuleDescriptorSpirV) -> (desc:
    ShaderModuleDescriptorSpirV<'a>)
    requires
        descriptor.sourceSize <= descriptor.source@.len(),
    ensures
        is_spirv(*descriptor, desc),
        desc.source@ == descriptor.source@.take(descriptor.sourceSize as int),
        desc.label is Some <==> descriptor.label is Some,
        desc.label matches Some(label) ==> label@ == descriptor.label->0@,
{
    let source = make_slice(descriptor.source.as_slice(), descriptor.sourceSize as usize);
    let label = match &descriptor.label {
        Some(label) => Some(label.as_str()),
        None => None,
    };
    ShaderModuleDescriptorSpirV { label, source }
}

/// The shader module that was made, with an error or without. The error is recorded nowhere.
pub fn spirv_module<S, U, L, E>(
    label: Option<&str>,
    error_sink: &mut ErrorSinkRaw<S, U, L>,
    made: (u64, Option<E>),
) -> (module: WGPUShaderModuleImpl)
    ensures
        *final(error_sink) == *old(error_sink),
        module.id == Some(made.0),
{
    let (shader_module_id, error) = made;
    if let Some(cause) = error {
        handle_error(error_sink, cause, label, "wgpuDeviceCreateShaderModuleSpirV");
    }
    WGPUShaderModuleImpl { id: Some(shader_module_id) }
}

/// Makes a shader module from SPIR-V. There is a module even where that fails, and the error is
/// recorded nowhere.
pub fn wgpuDeviceCreateShaderModuleSpirV<
    'a,
    S,
    U,
    L,
    E,
    Create: FnOnce(ShaderModuleDescriptorSpirV<'a>) -> (u64, Option<E>),
>(
    descriptor: &'a WGPUShaderModuleDescriptorSpirV,
    error_sink: &mut ErrorSinkRaw<S, U, L>,
    device_create_shader_module_passthrough: Create,
) -> (module: WGPUShaderModuleImpl)
    requires
        descriptor.sourceSize <= descriptor.source@.len(),
        forall|desc: ShaderModuleDescriptorSpirV<'a>|
            is_spirv(*descriptor, desc) ==> #[trigger] call_requires(
                device_create_shader_module_passthrough,
                (desc,),
            ),
    ensures
        *final(error_sink) == *old(error_sink),
        exists|desc: ShaderModuleDescriptorSpirV<'a>, made: (u64, Option<E>)|
            is_spirv(*descriptor, desc) && #[trigger] call_ensures(
                device_create_shader_module_passthrough,
                (desc,),
                made,
            ) && module.id == Some(made.0),
{
    let desc = spirv_descriptor(descriptor);
    let label = desc.label;
    let made = device_create_shader_module_passthrough(desc);
    spirv_module(label, error_sink, made)
}

/// How long to poll for. `T` is the number of a submission.
#[derive(Debug, PartialEq, Eq)]
pub enum PollType<T> {
    WaitForSubmissionIndex(T),
    Wait,
    Poll,
}

#[derive(Clone, Copy, Debug, PartialEq, Eq, Structural)]
pub enum PollStatus {
    QueueEmpty,
    WaitSucceeded,
    Poll,
}

/// What is waited for: nothing, one submission, or all of them.
pub open spec fn poll_type<T>(wait: bool, submission_index: Option<T>) -> PollType<T> {
    if !wait {
        PollType::Poll
    } else {
        match submission_index {
            Some(index) => PollType::WaitForSubmissionIndex(index),
            None => PollType::Wait,
        }
    }
}

/// Polls a device: true if it has no work left. The error is what to panic with.
pub fn wgpuDevicePoll<T, E, Poll: FnOnce(PollType<T>) -> Result<PollStatus, E>>(
    wait: bool,
    submission_index: Option<T>,
    device_poll: Poll,
) -> (idle: Result<bool, String>)
    requires
        call_requires(device_poll, (poll_type(wait, submission_index),)),
    ensures
        exists|polled: Result<PollStatus, E>| #[trigger]
            call_ensures(device_poll, (poll_type(wait, submission_index),), polled)
                && match polled {
                Ok(status) => idle == Ok::<bool, String>(status == PollStatus::QueueEmpty),
                Err(_) => idle matches Err(text) && text@ == crate::error::fatal_report(
                    "wgpuDevicePoll"@,
                ),
            },
{
    let maintain = match wait {
        true => match submission_index {
            Some(index) => PollType::WaitForSubmissionIndex(index),
            None => PollType::Wait,
        },
        false => PollType::Poll,
    };
    match value_or_fatal(device_poll(maintain), "wgpuDevicePoll") {
        Ok(PollStatus::QueueEmpty) => Ok(true),
        Ok(_) => Ok(false),
        Err(text) => Err(text),
    }
}

/// Lets go of a device: waits for its work, unless the thread is panicking already. The error is
/// what to panic with.
pub fn drop_device<T, S, E, Poll: FnOnce(PollType<T>) -> Result<S, E>>(
    panicking: bool,
    poll: Poll,
) -> (dropped: Result<(), String>)
    requires
        !panicking ==> call_requires(poll, (PollType::<T>::Wait,)),
    ensures
        panicking ==> dropped is Ok,
        !panicking ==> exists|polled: Result<S, E>| #[trigger]
            call_ensures(poll, (PollType::<T>::Wait,), polled) && match polled {
                Ok(_) => dropped is Ok,
                Err(_) => dropped matches Err(text) && text@ == crate::error::fatal_report(
                    "WGPUDeviceImpl::drop"@,
                ),
            },
{
    if !panicking {
        match value_or_fatal(poll(PollType::Wait), "WGPUDeviceImpl::drop") {
            Ok(_) => Ok(()),
            Err(text) => Err(text),
        }
    } else {
        Ok(())
    }
}

/// A descriptor whose codes are all unknown, with the levels of detail and the anisotropy of the
/// default sampler, describes the default sampler.
pub proof fn law_unknown_codes_describe_default_sampler<
    C,
    B,
    E,
    Address: Fn(u32) -> Option<AddressMode>,
    Filter: Fn(u32) -> Option<FilterMode>,
    Mipmap: Fn(u32) -> Option<FilterMode>,
    Compare: Fn(u32) -> Result<Option<C>, E>,
>(
    descriptor: WGPUSamplerDescriptor,
    map_address_mode: Address,
    map_filter_mode: Filter,
    map_mipmap_filter_mode: Mipmap,
    map_compare_function: Compare,
    desc: SamplerDescriptor<C, B>,
)
    requires
        descriptor.label is None,
        descriptor.lodMinClamp == LOD_MIN,
        descriptor.lodMaxClamp == LOD_MAX,
        descriptor.maxAnisotropy == 1,
        forall|code: u32, o: Option<AddressMode>| #[trigger]
            call_ensures(map_address_mode, (code,), o) ==> o is None,
        forall|code: u32, o: Option<FilterMode>| #[trigger]
            call_ensures(map_filter_mode, (code,), o) ==> o is None,
        forall|code: u32, o: Option<FilterMode>| #[trigger]
            call_ensures(map_mipmap_filter_mode, (code,), o) ==> o is None,
        forall|code: u32, r: Result<Option<C>, E>| #[trigger]
            call_ensures(map_compare_function, (code,), r) ==> r == Ok::<Option<C>, E>(None),
        desc.described(
            descriptor,
            map_address_mode,
            map_filter_mode,
            map_mipmap_filter_mode,
            map_compare_function,
        ),
    ensures
        desc == SamplerDescriptor::<C, B>::default_sampler(),
{
}

/// Who does not wait does not care for a submission.
pub proof fn law_polling_ignores_submissions<T>(a: Option<T>, b: Option<T>)
    ensures
        poll_type(false, a) == poll_type(false, b),
        poll_type(false, a) == PollType::<T>::Poll,
{
}

/// Every mode and filter with a known code is what the conversion gives for that very code; the
/// rest of the descriptor is passed on as it is.
pub proof fn law_known_codes_are_described<
    C,
    B,
    E,
    Address: Fn(u32) -> Option<AddressMode>,
    Filter: Fn(u32) -> Option<FilterMode>,
    Mipmap: Fn(u32) -> Option<FilterMode>,
    Compare: Fn(u32) -> Result<Option<C>, E>,
>(
    descriptor: WGPUSamplerDescriptor,
    map_address_mode: Address,
    map_filter_mode: Filter,
    map_mipmap_filter_mode: Mipmap,
    map_compare_function: Compare,
    desc: SamplerDescriptor<C, B>,
)
    requires
        desc.described(
            descriptor,
            map_address_mode,
            map_filter_mode,
            map_mipmap_filter_mode,
            map_compare_function,
        ),
    ensures
        (forall|o: Option<AddressMode>| #[trigger]
            call_ensures(map_address_mode, (descriptor.addressModeU,), o) ==> o is Some) ==> call_ensures(
            map_address_mode,
            (descriptor.addressModeU,),
            Some(desc.address_mode_u),
        ),
        (forall|o: Option<AddressMode>| #[trigger]
            call_ensures(map_address_mode, (descriptor.addressModeV,), o) ==> o is Some) ==> call_ensures(
            map_address_mode,
            (descriptor.addressModeV,),
            Some(desc.address_mode_v),
        ),
        (forall|o: Option<AddressMode>| #[trigger]
            call_ensures(map_address_mode, (descriptor.addressModeW,), o) ==> o is Some) ==> call_ensures(
            map_address_mode,
            (descriptor.addressModeW,),
            Some(desc.address_mode_w),
        ),
        (forall|o: Option<FilterMode>| #[trigger]
            call_ensures(map_filter_mode, (descriptor.magFilter,), o) ==> o is Some) ==> call_ensures(
            map_filter_mode,
            (descriptor.magFilter,),
            Some(desc.mag_filter),
        ),
        (forall|o: Option<FilterMode>| #[trigger]
            call_ensures(map_filter_mode, (descriptor.minFilter,), o) ==> o is Some) ==> call_ensures(
            map_filter_mode,
            (descriptor.minFilter,),
            Some(desc.min_filter),
        ),
        (forall|o: Option<FilterMode>| #[trigger]
            call_ensures(map_mipmap_filter_mode, (descriptor.mipmapFilter,), o) ==> o is Some) ==> call_ensures(
            map_mipmap_filter_mode,
            (descriptor.mipmapFilter,),
            Some(desc.mipmap_filter),
        ),
        desc.label == descriptor.label,
        desc.lod_min_clamp == descriptor.lodMinClamp,
        desc.lod_max_clamp == descriptor.lodMaxClamp,
        call_ensures(map_compare_function, (descriptor.compare,), Ok::<Option<C>, E>(desc.compare)),
        desc.anisotropy_clamp == descriptor.maxAnisotropy,
        desc.border_color is None,
{
}

/// A mode or filter with an unknown code is the default one, whatever the other codes are.
pub proof fn law_unknown_codes_are_defaults<
    C,
    B,
    E,
    Address: Fn(u32) -> Option<AddressMode>,
    Filter: Fn(u32) -> Option<FilterMode>,
    Mipmap: Fn(u32) -> Option<FilterMode>,
    Compare: Fn(u32) -> Result<Option<C>, E>,
>(
    descriptor: WGPUSamplerDescriptor,
    map_address_mode: Address,
    map_filter_mode: Filter,
    map_mipmap_filter_mode: Mipmap,
    map_compare_function: Compare,
    desc: SamplerDescriptor<C, B>,
)
    requires
        desc.described(
            descriptor,
            map_address_mode,
            map_filter_mode,
            map_mipmap_filter_mode,
            map_compare_function,
        ),
    ensures
        (forall|o: Option<AddressMode>| #[trigger]
            call_ensures(map_address_mode, (descriptor.addressModeU,), o) ==> o is None) ==> desc.address_mode_u
            == AddressMode::ClampToEdge,
        (forall|o: Option<AddressMode>| #[trigger]
            call_ensures(map_address_mode, (descriptor.addressModeV,), o) ==> o is None) ==> desc.address_mode_v
            == AddressMode::ClampToEdge,
        (forall|o: Option<AddressMode>| #[trigger]
            call_ensures(map_address_mode, (descriptor.addressModeW,), o) ==> o is None) ==> desc.address_mode_w
            == AddressMode::ClampToEdge,
        (forall|o: Option<FilterMode>| #[trigger]
            call_ensures(map_filter_mode, (descriptor.magFilter,), o) ==> o is None) ==> desc.mag_filter
            == FilterMode::Nearest,
        (forall|o: Option<FilterMode>| #[trigger]
            call_ensures(map_filter_mode, (descriptor.minFilter,), o) ==> o is None) ==> desc.min_filter
            == FilterMode::Nearest,
        (forall|o: Option<FilterMode>| #[trigger]
            call_ensures(map_mipmap_filter_mode, (descriptor.mipmapFilter,), o) ==> o is None) ==> desc.mipmap_filter
            == FilterMode::Nearest,
{
}

/// The sampler that is made without a descriptor clamps, takes the nearest texel, and covers the
/// levels of detail from 0 to 32.
pub proof fn law_default_sampler<C, B>(desc: SamplerDescriptor<C, B>)
    requires
        desc == SamplerDescriptor::<C, B>::default_sampler(),
    ensures
        desc.label is None,
        desc.address_mode_u == AddressMode::ClampToEdge,
        desc.address_mode_v == AddressMode::ClampToEdge,
        desc.address_mode_w == AddressMode::ClampToEdge,
        desc.mag_filter == FilterMode::Nearest,
        desc.min_filter == FilterMode::Nearest,
        desc.mipmap_filter == FilterMode::Nearest,
        desc.lod_min_clamp == 0,
        desc.lod_max_clamp == 0x4200_0000,
        desc.compare is None,
        desc.anisotropy_clamp == 1,
        desc.border_color is None,
{
}

/// The words of a module are the first of the source, as many as the descriptor counts, in their
/// order, and its label is that of the descriptor.
pub proof fn law_spirv_words_are_those_counted(
    descriptor: WGPUShaderModuleDescriptorSpirV,
    desc: ShaderModuleDescriptorSpirV<'_>,
)
    requires
        descriptor.sourceSize <= descriptor.source@.len(),
        is_spirv(descriptor, desc),
    ensures
        desc.source@.len() == descriptor.sourceSize,
        forall|i: int|
            0 <= i < descriptor.sourceSize ==> #[trigger] desc.source@[i] == descriptor.source@[i],
        desc.label is Some <==> descriptor.label is Some,
        desc.label matches Some(label) ==> label@ == descriptor.label->0@,
{
}

/// Who waits waits for the submission that was named, or for all of them where none was; who does
/// not wait only looks.
pub proof fn law_waiting_is_for_what_was_named<T>(wait: bool, submission_index: Option<T>)
    ensures
        poll_type(wait, submission_index) is Poll <==> !wait,
        poll_type(wait, submission_index) is Wait <==> wait && submission_index is None,
        poll_type(wait, submission_index) is WaitForSubmissionIndex <==> wait && submission_index
            is Some,
        poll_type(wait, submission_index) matches PollType::WaitForSubmissionIndex(index)
            ==> submission_index == Some(index),
{
}

} // verus!
