use msdftext::adapter::{device_rank, AdapterCandidate, DeviceType};
use msdftext::state::GraphicsState;

fn cand(surface_supported: bool, device_type: DeviceType) -> AdapterCandidate {
    AdapterCandidate { surface_supported, device_type }
}

#[test]
fn device_ranks() {
    assert_eq!(device_rank(DeviceType::IntegratedGpu), 2);
    assert_eq!(device_rank(DeviceType::DiscreteGpu), 1);
    assert_eq!(device_rank(DeviceType::Cpu), 0);
    assert_eq!(device_rank(DeviceType::VirtualGpu), 0);
    assert_eq!(device_rank(DeviceType::Other), 0);
}

#[test]
fn integrated_gpu_is_preferred() {
    let c = vec![
        cand(true, DeviceType::DiscreteGpu),
        cand(true, DeviceType::IntegratedGpu),
        cand(true, DeviceType::Cpu),
    ];
    assert_eq!(GraphicsState::pick_adapter_from_backend(&c), Some(1));
}

#[test]
fn adapters_that_cannot_present_are_skipped() {
    let c = vec![
        cand(false, DeviceType::IntegratedGpu),
        cand(true, DeviceType::Cpu),
        cand(true, DeviceType::DiscreteGpu),
    ];
    assert_eq!(GraphicsState::pick_adapter_from_backend(&c), Some(2));
}

#[test]
fn last_of_equals_is_taken() {
    let c = vec![
        cand(true, DeviceType::DiscreteGpu),
        cand(true, DeviceType::DiscreteGpu),
        cand(false, DeviceType::DiscreteGpu),
    ];
    assert_eq!(GraphicsState::pick_adapter_from_backend(&c), Some(1));
    let c = vec![cand(true, DeviceType::Cpu), cand(true, DeviceType::VirtualGpu)];
    assert_eq!(GraphicsState::pick_adapter_from_backend(&c), Some(1));
}

#[test]
fn no_adapter_when_none_can_present() {
    let c = vec![cand(false, DeviceType::IntegratedGpu)];
    assert_eq!(GraphicsState::pick_adapter_from_backend(&c), None);
    assert_eq!(GraphicsState::pick_adapter_from_backend(&vec![]), None);
}
