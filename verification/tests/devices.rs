use quadengine::device::{
    check_debug_layer, clamp_image_count, select_adapter, AdapterCandidate, AdapterKind,
    DeviceError,
};

fn candidate(kind: AdapterKind, suitable: bool) -> AdapterCandidate {
    AdapterCandidate {
        kind,
        supports_required_extensions: suitable,
        has_graphics_queue_for_surface: suitable,
    }
}

#[test]
fn discrete_gpu_is_preferred() {
    let cands = vec![
        candidate(AdapterKind::Cpu, true),
        candidate(AdapterKind::IntegratedGpu, true),
        candidate(AdapterKind::DiscreteGpu, true),
        candidate(AdapterKind::VirtualGpu, true),
    ];
    assert_eq!(select_adapter(&cands), Ok(2));
}

#[test]
fn unsuitable_adapters_are_skipped() {
    let cands = vec![
        candidate(AdapterKind::DiscreteGpu, false),
        candidate(AdapterKind::Cpu, true),
    ];
    assert_eq!(select_adapter(&cands), Ok(1));
}

#[test]
fn ties_go_to_the_first_candidate() {
    let cands = vec![
        candidate(AdapterKind::IntegratedGpu, true),
        candidate(AdapterKind::IntegratedGpu, true),
    ];
    assert_eq!(select_adapter(&cands), Ok(0));
}

#[test]
fn no_suitable_adapter_is_an_error() {
    let cands = vec![
        candidate(AdapterKind::DiscreteGpu, false),
        AdapterCandidate {
            kind: AdapterKind::IntegratedGpu,
            supports_required_extensions: true,
            has_graphics_queue_for_surface: false,
        },
    ];
    assert_eq!(select_adapter(&cands), Err(DeviceError::NoSuitableAdapter));
    assert_eq!(select_adapter(&Vec::new()), Err(DeviceError::NoSuitableAdapter));
}

#[test]
fn image_count_is_one_over_minimum_capped_at_maximum() {
    assert_eq!(clamp_image_count(2, None), 3);
    assert_eq!(clamp_image_count(2, Some(8)), 3);
    assert_eq!(clamp_image_count(2, Some(3)), 3);
    assert_eq!(clamp_image_count(3, Some(3)), 3);
    assert_eq!(clamp_image_count(5, Some(4)), 4);
}

#[test]
fn debug_layer_check() {
    assert!(check_debug_layer(false, false).is_ok());
    assert!(check_debug_layer(false, true).is_ok());
    assert!(check_debug_layer(true, true).is_ok());
    assert_eq!(check_debug_layer(true, false), Err(DeviceError::DebugLayerUnavailable));
}
