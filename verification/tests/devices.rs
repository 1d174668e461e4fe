use wgpu_native::buffer::{MapSize, MappedRange, WGPUBufferDescriptor};
use wgpu_native::device::{
    AddressMode, FilterMode, PollStatus, PollType, SamplerDescriptor, ShaderModuleDescriptorSpirV,
    WGPUBindGroupDescriptor, WGPUBindGroupLayoutDescriptor, WGPUCommandEncoderDescriptor,
    WGPUSamplerDescriptor, WGPUShaderModuleDescriptorSpirV,
};
use wgpu_native::error::default_callback;
use wgpu_native::native::WGPUFuture;
use wgpu_native::{
    drop_device, map_size, wgpuBufferGetConstMappedRange, wgpuBufferGetMappedRange, wgpuBufferMapAsync,
    wgpuDeviceCreateBindGroup, wgpuDeviceCreateBindGroupLayout, wgpuDeviceCreateBuffer,
    wgpuDeviceCreateCommandEncoder, wgpuDeviceCreateSampler, wgpuDeviceCreateShaderModule,
    wgpuDeviceCreateShaderModuleSpirV, wgpuDevicePoll, ErrorSinkRaw, WGPUShaderModuleImpl,
};

fn address(code: u32) -> Option<AddressMode> {
    match code {
        1 => Some(AddressMode::ClampToEdge),
        2 => Some(AddressMode::Repeat),
        3 => Some(AddressMode::MirrorRepeat),
        _ => None,
    }
}

fn filter(code: u32) -> Option<FilterMode> {
    match code {
        1 => Some(FilterMode::Nearest),
        2 => Some(FilterMode::Linear),
        _ => None,
    }
}

fn mipmap(code: u32) -> Option<FilterMode> {
    match code {
        11 => Some(FilterMode::Nearest),
        12 => Some(FilterMode::Linear),
        _ => None,
    }
}

fn compare(code: u32) -> Result<Option<u8>, String> {
    match code {
        0 => Ok(None),
        5 => Ok(Some(50)),
        _ => Err("unknown".to_string()),
    }
}

fn sampler() -> WGPUSamplerDescriptor {
    WGPUSamplerDescriptor {
        label: Some("s".to_string()),
        addressModeU: 2,
        addressModeV: 3,
        addressModeW: 1,
        magFilter: 2,
        minFilter: 1,
        mipmapFilter: 12,
        lodMinClamp: 1.5f32.to_bits(),
        lodMaxClamp: 8f32.to_bits(),
        compare: 5,
        maxAnisotropy: 16,
    }
}

fn make(descriptor: Option<WGPUSamplerDescriptor>) -> SamplerDescriptor<u8, ()> {
    wgpuDeviceCreateSampler(descriptor, address, filter, mipmap, compare)
}

#[test]
fn sampler_is_made_as_described() {
    let desc = make(Some(sampler()));
    assert_eq!(desc.label, Some("s".to_string()));
    assert_eq!(desc.address_mode_u, AddressMode::Repeat);
    assert_eq!(desc.address_mode_v, AddressMode::MirrorRepeat);
    assert_eq!(desc.address_mode_w, AddressMode::ClampToEdge);
    assert_eq!(desc.mag_filter, FilterMode::Linear);
    assert_eq!(desc.min_filter, FilterMode::Nearest);
    assert_eq!(desc.mipmap_filter, FilterMode::Linear);
    assert_eq!(f32::from_bits(desc.lod_min_clamp), 1.5);
    assert_eq!(f32::from_bits(desc.lod_max_clamp), 8.0);
    assert_eq!(desc.compare, Some(50));
    assert_eq!(desc.anisotropy_clamp, 16);
    assert_eq!(desc.border_color, None);
}

#[test]
fn sampler_defaults() {
    let desc = make(None);
    assert_eq!(desc.label, None);
    assert_eq!(desc.address_mode_u, AddressMode::ClampToEdge);
    assert_eq!(desc.address_mode_v, AddressMode::ClampToEdge);
    assert_eq!(desc.address_mode_w, AddressMode::ClampToEdge);
    assert_eq!(desc.mag_filter, FilterMode::Nearest);
    assert_eq!(desc.min_filter, FilterMode::Nearest);
    assert_eq!(desc.mipmap_filter, FilterMode::Nearest);
    assert_eq!(f32::from_bits(desc.lod_min_clamp), 0.0);
    assert_eq!(f32::from_bits(desc.lod_max_clamp), 32.0);
    assert_eq!(desc.compare, None);
    assert_eq!(desc.anisotropy_clamp, 1);
    assert_eq!(desc.border_color, None);
}

#[test]
fn unknown_codes_describe_the_default_sampler() {
    let described = make(Some(WGPUSamplerDescriptor {
        label: None,
        addressModeU: 90,
        addressModeV: 91,
        addressModeW: 92,
        magFilter: 93,
        minFilter: 94,
        mipmapFilter: 95,
        lodMinClamp: 0f32.to_bits(),
        lodMaxClamp: 32f32.to_bits(),
        compare: 0,
        maxAnisotropy: 1,
    }));
    let default = make(None);
    assert_eq!(format!("{described:?}"), format!("{default:?}"));
}

#[test]
fn mapped_ranges() {
    let whole = MappedRange { start: 8, end: 72 };
    assert_eq!(wgpuBufferGetConstMappedRange(8, MapSize::Whole, 64), whole);
    assert_eq!(wgpuBufferGetMappedRange(8, MapSize::Whole, 64), whole);
    let part = MappedRange { start: 8, end: 12 };
    assert_eq!(wgpuBufferGetConstMappedRange(8, MapSize::Bytes(4), 64), part);
    assert_eq!(wgpuBufferGetMappedRange(8, MapSize::Bytes(4), 64), part);
    let empty = MappedRange { start: 0, end: 0 };
    assert_eq!(wgpuBufferGetMappedRange(0, MapSize::Bytes(0), 64), empty);
}

#[test]
fn buffer_is_made_as_described() {
    let descriptor = |mappedAtCreation: u32| WGPUBufferDescriptor {
        label: Some("b".to_string()),
        usage: 12,
        size: 1 << 40,
        mappedAtCreation,
    };
    let known = |bits: u64| if bits < 16 { Some(bits as u8) } else { None };
    let desc = wgpuDeviceCreateBuffer(descriptor(2), known);
    assert_eq!(desc.label, Some("b".to_string()));
    assert_eq!(desc.size, 1 << 40);
    assert_eq!(desc.usage, 12);
    assert!(desc.mapped_at_creation);
    assert!(!wgpuDeviceCreateBuffer(descriptor(0), known).mapped_at_creation);
}

#[test]
fn mapping_has_no_future() {
    assert_eq!(wgpuBufferMapAsync("callback", 0, 4), WGPUFuture { id: 0 });
}

#[test]
fn bind_group_entries_are_converted_in_order() {
    let desc = wgpuDeviceCreateBindGroup(
        WGPUBindGroupDescriptor {
            label: None,
            layout: Some("layout"),
            entryCount: 2,
            entries: vec![1u32, 2, 3],
        },
        |entry: &u32| *entry * 10,
    );
    assert_eq!(desc.label, None);
    assert_eq!(desc.layout, "layout");
    assert_eq!(desc.entries, vec![10, 20]);
}

#[test]
fn bind_group_layout_entries_are_converted_in_order() {
    let desc = wgpuDeviceCreateBindGroupLayout(
        WGPUBindGroupLayoutDescriptor {
            label: Some("l".to_string()),
            entryCount: 3,
            entries: vec![1u32, 2, 3],
        },
        |entry: &u32| *entry + 1,
    );
    assert_eq!(desc.label, Some("l".to_string()));
    assert_eq!(desc.entries, vec![2, 3, 4]);
    let none = wgpuDeviceCreateBindGroupLayout(
        WGPUBindGroupLayoutDescriptor { label: None, entryCount: 0, entries: vec![] },
        |entry: &u32| *entry,
    );
    assert!(none.entries.is_empty());
}

#[test]
fn command_encoder_labels() {
    let label = Some("c".to_string());
    let described = wgpuDeviceCreateCommandEncoder(Some(WGPUCommandEncoderDescriptor {
        label: label.clone(),
    }));
    assert_eq!(described.label, label);
    assert_eq!(wgpuDeviceCreateCommandEncoder(None).label, None);
}

#[test]
fn shader_module_keeps_label_and_source() {
    let source: Result<&str, ()> = Ok("@compute fn main() {}");
    let desc = wgpuDeviceCreateShaderModule(Some("m".to_string()), source);
    assert_eq!(desc.label, Some("m".to_string()));
    assert_eq!(desc.source, "@compute fn main() {}");
}

#[test]
fn spirv_module_takes_the_counted_words() {
    let mut sink: ErrorSinkRaw<(), u8, u8> = ErrorSinkRaw::new(default_callback());
    let descriptor = WGPUShaderModuleDescriptorSpirV {
        label: Some("spv".to_string()),
        sourceSize: 2,
        source: vec![0x0723_0203, 7, 8],
    };
    let module = wgpuDeviceCreateShaderModuleSpirV(
        &descriptor,
        &mut sink,
        |desc: ShaderModuleDescriptorSpirV| -> (u64, Option<()>) {
            assert_eq!(desc.label, Some("spv"));
            assert_eq!(desc.source, [0x0723_0203, 7].as_slice());
            (31, None)
        },
    );
    assert_eq!(module, WGPUShaderModuleImpl { id: Some(31) });
}

#[test]
fn failed_spirv_module_is_handed_out_all_the_same() {
    let mut sink: ErrorSinkRaw<(), u8, u8> = ErrorSinkRaw::new(default_callback());
    let descriptor =
        WGPUShaderModuleDescriptorSpirV { label: None, sourceSize: 0, source: vec![] };
    let module = wgpuDeviceCreateShaderModuleSpirV(
        &descriptor,
        &mut sink,
        |desc: ShaderModuleDescriptorSpirV| {
            assert!(desc.label.is_none() && desc.source.is_empty());
            (32, Some("bad module"))
        },
    );
    assert_eq!(module.id, Some(32));
    assert!(sink.scopes.is_empty());
}

#[test]
fn poll_types() {
    let seen = |wait: bool, index: Option<u64>| -> PollType<u64> {
        let mut asked = None;
        wgpuDevicePoll(wait, index, |poll: PollType<u64>| -> Result<PollStatus, ()> {
            asked = Some(poll);
            Ok(PollStatus::Poll)
        })
        .unwrap();
        asked.unwrap()
    };
    assert_eq!(seen(true, Some(5)), PollType::WaitForSubmissionIndex(5));
    assert_eq!(seen(true, None), PollType::Wait);
    assert_eq!(seen(false, Some(5)), PollType::Poll);
    assert_eq!(seen(false, None), PollType::Poll);
}

#[test]
fn poll_results() {
    let poll = |result: Result<PollStatus, &'static str>| {
        wgpuDevicePoll(true, Some(1u8), move |_: PollType<u8>| result)
    };
    assert_eq!(poll(Ok(PollStatus::QueueEmpty)), Ok(true));
    assert_eq!(poll(Ok(PollStatus::WaitSucceeded)), Ok(false));
    assert_eq!(poll(Ok(PollStatus::Poll)), Ok(false));
    assert_eq!(
        poll(Err("timeout")),
        Err("Error in wgpuDevicePoll: Validation Error\n\nCaused by:\n".to_string())
    );
}

#[test]
fn dropped_device_waits_for_its_work() {
    let done = drop_device(false, |poll: PollType<u8>| -> Result<(), ()> {
        assert_eq!(poll, PollType::Wait);
        Ok(())
    });
    assert_eq!(done, Ok(()));
    let failed = drop_device(false, |_: PollType<u8>| -> Result<(), &str> { Err("lost") });
    assert_eq!(
        failed,
        Err("Error in WGPUDeviceImpl::drop: Validation Error\n\nCaused by:\n".to_string())
    );
}

#[test]
fn device_dropped_in_a_panic_does_not_wait() {
    let done = drop_device(true, |_: PollType<u8>| -> Result<(), ()> { panic!("polled") });
    assert_eq!(done, Ok(()));
}

#[test]
fn one_size_stands_for_the_whole_buffer() {
    assert_eq!(map_size(usize::MAX, usize::MAX), MapSize::Whole);
    assert_eq!(map_size(12, usize::MAX), MapSize::Bytes(12));
    assert_eq!(map_size(0, usize::MAX), MapSize::Bytes(0));
    let asked = map_size(usize::MAX, usize::MAX);
    assert_eq!(wgpuBufferGetMappedRange(8, asked, 64), MappedRange { start: 8, end: 72 });
}
