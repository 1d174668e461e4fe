//! Adapters and devices: their features, limits and descriptions.

use vstd::prelude::*;

use crate::native::{
    NativeArray, WGPUAdapterType, WGPUBackendCode, WGPUBool, WGPUFeatureName, WGPUStatus,
};
use crate::outside::features_contains;

verus! {

/// A set of features, as the two bit sets of `wgpu_types::Features`.
#[derive(Clone, Copy, Debug, PartialEq, Eq, Structural)]
pub struct FeatureBits {
    pub wgpu: u64,
    pub webgpu: u64,
}

impl FeatureBits {
    /// Every bit of the other set is one of this.
    pub open spec fn includes(self, other: FeatureBits) -> bool {
        &&& self.wgpu & other.wgpu == other.wgpu
        &&& self.webgpu & other.webgpu == other.webgpu
    }
}

/// The names of features. `P` is memory with names in it.
#[derive(Debug)]
pub struct WGPUSupportedFeatures<P> {
    pub features: NativeArray<P>,
}

/// Writes out the names of the features.
pub fn return_features<F, Convert: Fn(F) -> Vec<WGPUFeatureName>>(
    native: &mut WGPUSupportedFeatures<Vec<WGPUFeatureName>>,
    features: F,
    features_to_native: Convert,
)
    requires
        call_requires(features_to_native, (features,)),
    ensures
        final(native).features.wf(),
        exists|names: Vec<WGPUFeatureName>| #[trigger]
            call_ensures(features_to_native, (features,), names)
                && final(native).features.data == Some(names),
{
    let temp = features_to_native(features);
    native.features = NativeArray::never_null(temp);
}

/// Writes out the names of the features that an adapter has.
pub fn wgpuAdapterGetFeatures<F, Convert: Fn(F) -> Vec<WGPUFeatureName>>(
    adapter_features: F,
    features: &mut WGPUSupportedFeatures<Vec<WGPUFeatureName>>,
    features_to_native: Convert,
) -> (status: WGPUStatus)
    requires
        call_requires(features_to_native, (adapter_features,)),
    ensures
        status == WGPUStatus::Success,
        final(features).features.wf(),
        exists|names: Vec<WGPUFeatureName>| #[trigger]
            call_ensures(features_to_native, (adapter_features,), names)
                && final(features).features.data == Some(names),
{
    return_features(features, adapter_features, features_to_native);
    WGPUStatus::Success
}

/// Writes out the names of the features that a device has.
pub fn wgpuDeviceGetFeatures<F, Convert: Fn(F) -> Vec<WGPUFeatureName>>(
    device_features: F,
    features: &mut WGPUSupportedFeatures<Vec<WGPUFeatureName>>,
    features_to_native: Convert,
) -> (status: WGPUStatus)
    requires
        call_requires(features_to_native, (device_features,)),
    ensures
        status == WGPUStatus::Success,
        final(features).features.wf(),
        exists|names: Vec<WGPUFeatureName>| #[trigger]
            call_ensures(features_to_native, (device_features,), names)
                && final(features).features.data == Some(names),
{
    return_features(features, device_features, features_to_native);
    WGPUStatus::Success
}

/// Takes the memory out of a list of features, for its owner to free.
pub fn wgpuSupportedFeaturesFreeMembers<P>(supported_features: WGPUSupportedFeatures<P>) -> (members:
    Option<(P, usize)>)
    ensures
        members == supported_features.features.owned(),
{
    supported_features.features.into_owned()
}

/// Whether an adapter with the features has the one with the name. Unknown names are had by none.
pub fn wgpuAdapterHasFeature<Convert: Fn(WGPUFeatureName) -> Option<FeatureBits>>(
    adapter_features: FeatureBits,
    feature: WGPUFeatureName,
    map_feature: Convert,
) -> (has: WGPUBool)
    requires
        call_requires(map_feature, (feature,)),
    ensures
        exists|mapped: Option<FeatureBits>| #[trigger]
            call_ensures(map_feature, (feature,), mapped) && has == has_feature(
                adapter_features,
                mapped,
            ) && has == (match mapped {
                Some(wanted) => if adapter_features.wgpu & wanted.wgpu == wanted.wgpu
                    && adapter_features.webgpu & wanted.webgpu == wanted.webgpu {
                    1u32
                } else {
                    0
                },
                None => 0,
            }),
{
    let feature = match map_feature(feature) {
        Some(feature) => feature,
        None => {
            return 0;
        },
    };
    if features_contains(adapter_features, feature) {
        1
    } else {
        0
    }
}

/// Whether a device with the features has the one with the name. Unknown names are had by none.
pub fn wgpuDeviceHasFeature<Convert: Fn(WGPUFeatureName) -> Option<FeatureBits>>(
    device_features: FeatureBits,
    feature: WGPUFeatureName,
    map_feature: Convert,
) -> (has: WGPUBool)
    requires
        call_requires(map_feature, (feature,)),
    ensures
        exists|mapped: Option<FeatureBits>| #[trigger]
            call_ensures(map_feature, (feature,), mapped) && has == has_feature(
                device_features,
                mapped,
            ) && has == (match mapped {
                Some(wanted) => if device_features.wgpu & wanted.wgpu == wanted.wgpu
                    && device_features.webgpu & wanted.webgpu == wanted.webgpu {
                    1u32
                } else {
                    0
                },
                None => 0,
            }),
{
    let feature = match map_feature(feature) {
        Some(feature) => feature,
        None => {
            return 0;
        },
    };
    if features_contains(device_features, feature) {
        1
    } else {
        0
    }
}

/// 1 if the feature is known and all of it is among the features, else 0.
pub open spec fn has_feature(features: FeatureBits, feature: Option<FeatureBits>) -> WGPUBool {
    match feature {
        Some(feature) if features.includes(feature) => 1,
        _ => 0,
    }
}

/// Writes out the limits of an adapter. That is always possible.
pub fn wgpuAdapterGetLimits<T, N: Copy, Write: FnOnce(T, N) -> N>(
    wgt_limits: T,
    limits: &mut N,
    write_limits_struct: Write,
) -> (filled: WGPUBool)
    requires
        call_requires(write_limits_struct, (wgt_limits, *old(limits))),
    ensures
        call_ensures(write_limits_struct, (wgt_limits, *old(limits)), *final(limits)),
        filled == 1,
{
    *limits = write_limits_struct(wgt_limits, *limits);
    1
}

/// Writes out the limits of a device. That is always possible.
pub fn wgpuDeviceGetLimits<T, N: Copy, Write: FnOnce(T, N) -> N>(
    wgt_limits: T,
    limits: &mut N,
    write_limits_struct: Write,
) -> (filled: WGPUBool)
    requires
        call_requires(write_limits_struct, (wgt_limits, *old(limits))),
    ensures
        call_ensures(write_limits_struct, (wgt_limits, *old(limits)), *final(limits)),
        filled == 1,
{
    *limits = write_limits_struct(wgt_limits, *limits);
    1
}

/// What the graphics library tells of an adapter.
#[derive(Debug)]
pub struct AdapterInfo<T, B> {
    pub name: String,
    pub vendor: u32,
    pub device: u32,
    pub device_type: T,
    pub driver: String,
    pub driver_info: String,
    pub backend: B,
}

/// A description of an adapter. `P` is memory with text in it; a null string has none.
#[derive(Debug)]
pub struct WGPUAdapterInfo<P> {
    pub vendor: Option<P>,
    pub architecture: Option<P>,
    pub device: Option<P>,
    pub description: Option<P>,
    pub backendType: WGPUBackendCode,
    pub adapterType: WGPUAdapterType,
    pub vendorID: u32,
    pub deviceID: u32,
}

/// Writes out the description of an adapter. The driver stands for its vendor, and nothing for
/// its architecture.
pub fn wgpuAdapterGetInfo<
    T,
    B,
    MapBackend: Fn(B) -> WGPUBackendCode,
    MapAdapter: Fn(T) -> WGPUAdapterType,
>(
    result: AdapterInfo<T, B>,
    info: &mut WGPUAdapterInfo<String>,
    map_backend_type: MapBackend,
    map_adapter_type: MapAdapter,
) -> (status: WGPUStatus)
    requires
        call_requires(map_backend_type, (result.backend,)),
        call_requires(map_adapter_type, (result.device_type,)),
    ensures
        status == WGPUStatus::Success,
        final(info).vendor == Some(result.driver),
        final(info).architecture is None,
        final(info).device == Some(result.name),
        final(info).description == Some(result.driver_info),
        call_ensures(map_backend_type, (result.backend,), final(info).backendType),
        call_ensures(map_adapter_type, (result.device_type,), final(info).adapterType),
        final(info).vendorID == result.vendor,
        final(info).deviceID == result.device,
{
    info.vendor = Some(result.driver);
    info.architecture = None;
    info.device = Some(result.name);
    info.description = Some(result.driver_info);
    info.backendType = map_backend_type(result.backend);
    info.adapterType = map_adapter_type(result.device_type);
    info.vendorID = result.vendor;
    info.deviceID = result.device;
    WGPUStatus::Success
}

/// Takes the strings out of a description, for their owner to free.
pub fn wgpuAdapterInfoFreeMembers<P>(adapter_info: WGPUAdapterInfo<P>) -> (members: [Option<P>; 4])
    ensures
        members@ == seq![
            adapter_info.vendor,
            adapter_info.architecture,
            adapter_info.device,
            adapter_info.description,
        ],
{
    [
        adapter_info.vendor,
        adapter_info.architecture,
        adapter_info.device,
        adapter_info.description,
    ]
}

/// A set of features includes itself.
pub proof fn law_features_include_themselves(features: FeatureBits)
    ensures
        features.includes(features),
{
    let (a, b) = (features.wgpu, features.webgpu);
    assert(a & a == a && b & b == b) by (bit_vector);
}

/// A feature that some features have, all features that include them have too.
pub proof fn law_more_features_have_no_less(
    more: FeatureBits,
    features: FeatureBits,
    feature: Option<FeatureBits>,
)
    requires
        more.includes(features),
        has_feature(features, feature) == 1,
    ensures
        has_feature(more, feature) == 1,
{
    let wanted = feature->0;
    let (a, d, f) = (more.wgpu, features.wgpu, wanted.wgpu);
    assert(a & d == d && d & f == f ==> a & f == f) by (bit_vector);
    let (a, d, f) = (more.webgpu, features.webgpu, wanted.webgpu);
    assert(a & d == d && d & f == f ==> a & f == f) by (bit_vector);
}

/// From the bit at `k` on, a number that is not yet zero has a bit that is set.
proof fn lemma_some_bit(d: u64, k: u64) -> (i: u64)
    requires
        k < 64,
        d >> k != 0,
    ensures
        i < 64,
        (d >> i) & 1 == 1,
    decreases 64 - k,
{
    if (d >> k) & 1 == 1 {
        k
    } else {
        assert(k < 64 && d >> k != 0 && (d >> k) & 1 != 1 ==> k < 63 && d >> ((k + 1) as u64) != 0)
            by (bit_vector);
        lemma_some_bit(d, (k + 1) as u64)
    }
}

/// One set of bits has all of another exactly if it has each of them.
proof fn lemma_bit_by_bit(a: u64, f: u64)
    ensures
        a & f == f <==> forall|i: u64|
            i < 64 && (#[trigger] (f >> i)) & 1 == 1 ==> (a >> i) & 1 == 1,
{
    if a & f == f {
        assert forall|i: u64| i < 64 && (#[trigger] (f >> i)) & 1 == 1 implies (a >> i) & 1
            == 1 by {
            assert(a & f == f && i < 64 && (f >> i) & 1 == 1 ==> (a >> i) & 1 == 1)
                by (bit_vector);
        }
    } else {
        let d = f & !a;
        assert(a & f != f ==> (f & !a) >> 0u64 != 0) by (bit_vector);
        let i = lemma_some_bit(d, 0);
        assert(i < 64 && ((f & !a) >> i) & 1 == 1 ==> (f >> i) & 1 == 1 && (a >> i) & 1 != 1)
            by (bit_vector);
        assert((f >> i) & 1 == 1 && (a >> i) & 1 != 1);
    }
}

/// A known feature is had exactly if every bit of it is set among the features, in the one word
/// and in the other. An unknown feature is not had.
pub proof fn law_feature_is_had_bit_by_bit(features: FeatureBits, feature: FeatureBits)
    ensures
        has_feature(features, Some(feature)) == 1 <==> {
            &&& forall|i: u64|
                i < 64 && (#[trigger] (feature.wgpu >> i)) & 1 == 1 ==> (features.wgpu >> i) & 1
                    == 1
            &&& forall|i: u64|
                i < 64 && (#[trigger] (feature.webgpu >> i)) & 1 == 1 ==> (features.webgpu >> i) & 1
                    == 1
        },
        has_feature(features, Some(feature)) == 0 || has_feature(features, Some(feature)) == 1,
        has_feature(features, None) == 0,
{
    lemma_bit_by_bit(features.wgpu, feature.wgpu);
    lemma_bit_by_bit(features.webgpu, feature.webgpu);
}

/// Features that share no bit with a feature do not have it, unless it asks for nothing.
pub proof fn law_foreign_feature_is_not_had(features: FeatureBits, feature: FeatureBits)
    requires
        features.wgpu & feature.wgpu == 0,
        features.webgpu & feature.webgpu == 0,
        feature.wgpu != 0 || feature.webgpu != 0,
    ensures
        has_feature(features, Some(feature)) == 0,
{
}

/// Two features are had together exactly if each of them is had.
pub proof fn law_features_are_had_one_by_one(features: FeatureBits, a: FeatureBits, b: FeatureBits)
    ensures
        has_feature(
            features,
            Some(FeatureBits { wgpu: a.wgpu | b.wgpu, webgpu: a.webgpu | b.webgpu }),
        ) == 1 <==> has_feature(features, Some(a)) == 1 && has_feature(features, Some(b)) == 1,
{
    let (f, x, y) = (features.wgpu, a.wgpu, b.wgpu);
    assert(f & (x | y) == (x | y) <==> f & x == x && f & y == y) by (bit_vector);
    let (f, x, y) = (features.webgpu, a.webgpu, b.webgpu);
    assert(f & (x | y) == (x | y) <==> f & x == x && f & y == y) by (bit_vector);
}

} // verus!
