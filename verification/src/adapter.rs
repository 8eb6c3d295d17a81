//! The adapters found on a backend, as the choice among them sees them.

use vstd::prelude::*;

verus! {

/// The kind of device behind an adapter.
#[derive(Clone, Copy, Debug, PartialEq, Eq, Structural)]
pub enum DeviceType {
    Other,
    IntegratedGpu,
    DiscreteGpu,
    VirtualGpu,
    Cpu,
}

/// One adapter of a backend: whether it can present to the window's surface,
/// and its kind of device.
#[derive(Clone, Copy, Debug, PartialEq, Eq, Structural)]
pub struct AdapterCandidate {
    pub surface_supported: bool,
    pub device_type: DeviceType,
}

/// How much an adapter is wanted: integrated GPUs most, then discrete GPUs,
/// then everything else.
pub open spec fn spec_device_rank(device_type: DeviceType) -> u8 {
    match device_type {
        DeviceType::IntegratedGpu => 2u8,
        DeviceType::DiscreteGpu => 1u8,
        _ => 0u8,
    }
}

pub fn device_rank(device_type: DeviceType) -> (r: u8)
    ensures
        r == spec_device_rank(device_type),
{
    match device_type {
        DeviceType::IntegratedGpu => 2,
        DeviceType::DiscreteGpu => 1,
        _ => 0,
    }
}

/// Adapter `i` is the one chosen from `candidates`: it supports the surface,
/// no supporting adapter ranks higher, and every supporting adapter after it
/// ranks lower (of equally ranked adapters the last one wins).
pub open spec fn is_chosen_adapter(candidates: Seq<AdapterCandidate>, i: int) -> bool {
    &&& 0 <= i < candidates.len()
    &&& candidates[i].surface_supported
    &&& forall|j: int|
        0 <= j < candidates.len() && (#[trigger] candidates[j]).surface_supported
            ==> spec_device_rank(candidates[j].device_type) <= spec_device_rank(
            candidates[i].device_type,
        )
    &&& forall|j: int|
        i < j < candidates.len() && (#[trigger] candidates[j]).surface_supported
            ==> spec_device_rank(candidates[j].device_type) < spec_device_rank(
            candidates[i].device_type,
        )
}

/// At most one adapter is the chosen one.
pub proof fn lemma_chosen_adapter_unique(candidates: Seq<AdapterCandidate>, i: int, k: int)
    requires
        is_chosen_adapter(candidates, i),
        is_chosen_adapter(candidates, k),
    ensures
        i == k,
{
    if i < k {
        assert(candidates[k].surface_supported);
    } else if k < i {
        assert(candidates[i].surface_supported);
    }
}

} // verus!
