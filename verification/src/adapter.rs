//! Adapter negotiation.
//!
//! Construction selects exactly one physical adapter for the presentation
//! target.  Hard constraints — the required feature set, the required
//! limits, and the forced software fallback — must all hold of the chosen
//! adapter; the power preference is soft and steers the choice without
//! ever causing failure.  The driver enumerates the adapters the native
//! back ends offer and hands their capabilities here as plain values; when
//! no adapter satisfies the hard constraints the negotiation fails with
//! `AdapterError::NotObtained` and construction aborts.

use vstd::prelude::*;

verus! {

/// Native back ends an instance may consider, as a bitmask.
pub const BACKEND_VULKAN: u32 = 1;
pub const BACKEND_GL: u32 = 2;
pub const BACKEND_METAL: u32 = 4;
pub const BACKEND_DX12: u32 = 8;
pub const BACKEND_BROWSER_WEBGPU: u32 = 16;

/// The device limits this renderer's logic reads.
#[derive(Clone, Copy, Debug, PartialEq, Eq, Structural)]
pub struct Limits {
    /// Largest width or height, in texels, of a two-dimensional texture.
    pub max_texture_dimension_2d: u32,
}

/// Relies on wgpu::Limits::downlevel_defaults: the conservative limit set
/// guaranteed to work on most back ends caps two-dimensional textures at
/// 2048 texels a side.
#[verifier::external_body]
fn wgpu_downlevel_max_texture_dimension_2d() -> (r: u32)
    ensures
        r == 2048,
{
    wgpu::Limits::downlevel_defaults().max_texture_dimension_2d
}

impl Limits {
    /// The conservative default limit set requested from the device.
    pub fn downlevel_defaults() -> (r: Limits)
        ensures
            r.max_texture_dimension_2d == 2048,
    {
        Limits { max_texture_dimension_2d: wgpu_downlevel_max_texture_dimension_2d() }
    }
}

/// Non-binding preference between power classes of adapters.
#[derive(Clone, Copy, Debug, PartialEq, Eq, Structural)]
pub enum PowerPreference {
    NoPreference,
    LowPower,
    HighPerformance,
}

/// What kind of physical device backs an adapter.
#[derive(Clone, Copy, Debug, PartialEq, Eq, Structural)]
pub enum DeviceType {
    Other,
    IntegratedGpu,
    DiscreteGpu,
    VirtualGpu,
    Cpu,
}

/// The capabilities of one available adapter, as plain values.
#[derive(Clone, Copy, Debug, PartialEq, Eq, Structural)]
pub struct AdapterProfile {
    /// Bitmask of the optional features the adapter offers.
    pub features: u64,
    /// The adapter's own limit on two-dimensional texture extents.
    pub max_texture_dimension_2d: u32,
    /// Whether this adapter is a software fallback.
    pub is_fallback: bool,
    pub device_type: DeviceType,
}

/// The capability request negotiation works from.
#[derive(Clone, Copy, Debug, PartialEq, Eq, Structural)]
pub struct AdapterRequest {
    pub power_preference: PowerPreference,
    pub force_fallback_adapter: bool,
    /// Bitmask of the features the device will be requested with.
    pub required_features: u64,
    pub required_limits: Limits,
}

/// Negotiation failure: no adapter satisfies every hard constraint.
#[derive(Clone, Copy, Debug, PartialEq, Eq, Structural)]
pub enum AdapterError {
    NotObtained,
}

/// The hard constraints: required features present, required limits met,
/// and the fallback flag honored.  An adapter failing any of these can
/// never be selected.
pub open spec fn satisfies_hard_constraints(p: AdapterProfile, rq: AdapterRequest) -> bool {
    &&& p.features & rq.required_features == rq.required_features
    &&& p.max_texture_dimension_2d >= rq.required_limits.max_texture_dimension_2d
    &&& rq.force_fallback_adapter ==> p.is_fallback
}

/// The soft constraint: the adapter's power class agrees with the
/// preference.  It steers selection but never causes failure.
pub open spec fn matches_power_preference(p: AdapterProfile, pref: PowerPreference) -> bool {
    match pref {
        PowerPreference::NoPreference => true,
        PowerPreference::LowPower => p.device_type == DeviceType::IntegratedGpu,
        PowerPreference::HighPerformance => p.device_type == DeviceType::DiscreteGpu,
    }
}

/// Whether this adapter satisfies every hard constraint of the request.
pub fn adapter_satisfies(p: &AdapterProfile, rq: &AdapterRequest) -> (r: bool)
    ensures
        r == satisfies_hard_constraints(*p, *rq),
{
    (p.features & rq.required_features) == rq.required_features
        && p.max_texture_dimension_2d >= rq.required_limits.max_texture_dimension_2d && (
    !rq.force_fallback_adapter || p.is_fallback)
}

/// Select exactly one adapter for the request.
///
/// Succeeds if and only if some candidate satisfies all hard constraints.
/// Among the satisfying candidates, one matching the power preference is
/// taken when any exists; a preference nobody matches never causes
/// failure.
pub fn select_adapter(candidates: &Vec<AdapterProfile>, request: &AdapterRequest) -> (r: Result<
    usize,
    AdapterError,
>)
    ensures
        r is Ok <==> exists|i: int|
            0 <= i < candidates@.len() && satisfies_hard_constraints(
                #[trigger] candidates@[i],
                *request,
            ),
        r matches Ok(i) ==> {
            &&& i < candidates@.len()
            &&& satisfies_hard_constraints(candidates@[i as int], *request)
            &&& (exists|j: int|
                0 <= j < candidates@.len() && satisfies_hard_constraints(
                    #[trigger] candidates@[j],
                    *request,
                ) && matches_power_preference(candidates@[j], request.power_preference))
                ==> matches_power_preference(candidates@[i as int], request.power_preference)
        },
        r is Err ==> r == Err::<usize, AdapterError>(AdapterError::NotObtained),
{
    let mut i: usize = 0;
    while i < candidates.len()
        invariant
            i <= candidates@.len(),
            forall|j: int|
                0 <= j < i ==> !(satisfies_hard_constraints(#[trigger] candidates@[j], *request)
                    && matches_power_preference(candidates@[j], request.power_preference)),
        decreases candidates@.len() - i,
    {
        let p = &candidates[i];
        if adapter_satisfies(p, request) {
            let power_match = match request.power_preference {
                PowerPreference::NoPreference => true,
                PowerPreference::LowPower => matches!(p.device_type, DeviceType::IntegratedGpu),
                PowerPreference::HighPerformance => matches!(
                    p.device_type,
                    DeviceType::DiscreteGpu,
                ),
            };
            if power_match {
                return Ok(i);
            }
        }
        i = i + 1;
    }
    let mut k: usize = 0;
    while k < candidates.len()
        invariant
            k <= candidates@.len(),
            forall|j: int|
                0 <= j < candidates@.len() ==> !(satisfies_hard_constraints(
                    #[trigger] candidates@[j],
                    *request,
                ) && matches_power_preference(candidates@[j], request.power_preference)),
            forall|j: int|
                0 <= j < k ==> !satisfies_hard_constraints(#[trigger] candidates@[j], *request),
        decreases candidates@.len() - k,
    {
        let p = &candidates[k];
        if adapter_satisfies(p, request) {
            return Ok(k);
        }
        k = k + 1;
    }
    Err(AdapterError::NotObtained)
}

} // verus!
