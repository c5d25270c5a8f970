use triangle::device::{
    device_type_label, device_type_rank, queue_request, required_device_extensions,
    select_device, DeviceCandidate, DeviceSelection, DeviceType, QueueFamilyInfo,
    QUEUE_PRIORITY_MILLI,
};

fn fam(id: u32, graphics: bool, present: bool) -> QueueFamilyInfo {
    QueueFamilyInfo { id, supports_graphics: graphics, supports_present: present }
}

fn candidate(t: DeviceType, extensions: bool, families: Vec<QueueFamilyInfo>) -> DeviceCandidate {
    DeviceCandidate {
        device_type: t,
        supports_required_extensions: extensions,
        queue_families: families,
    }
}

#[test]
fn rank_order_is_fixed() {
    assert_eq!(device_type_rank(DeviceType::Discrete), 0);
    assert_eq!(device_type_rank(DeviceType::Integrated), 1);
    assert_eq!(device_type_rank(DeviceType::Virtual), 2);
    assert_eq!(device_type_rank(DeviceType::Cpu), 3);
    assert_eq!(device_type_rank(DeviceType::Other), 4);
}

#[test]
fn discrete_beats_integrated() {
    let cs = vec![
        candidate(DeviceType::Integrated, true, vec![fam(0, true, true)]),
        candidate(DeviceType::Discrete, true, vec![fam(2, true, true)]),
    ];
    let sel = select_device(&cs).unwrap();
    assert_eq!(sel, DeviceSelection { device_index: 1, queue_family_id: 2 });
}

#[test]
fn ties_break_by_enumeration_order() {
    let cs = vec![
        candidate(DeviceType::Discrete, true, vec![fam(4, true, true)]),
        candidate(DeviceType::Discrete, true, vec![fam(9, true, true)]),
    ];
    let sel = select_device(&cs).unwrap();
    assert_eq!(sel.device_index, 0);
    assert_eq!(sel.queue_family_id, 4);
}

#[test]
fn selection_is_repeatable() {
    let cs = vec![
        candidate(DeviceType::Cpu, true, vec![fam(1, true, true)]),
        candidate(DeviceType::Virtual, true, vec![fam(3, true, true)]),
        candidate(DeviceType::Other, true, vec![fam(5, true, true)]),
    ];
    let first = select_device(&cs);
    let second = select_device(&cs);
    assert_eq!(first, second);
    assert_eq!(first.unwrap().device_index, 1);
}

#[test]
fn missing_extensions_disqualify() {
    let cs = vec![
        candidate(DeviceType::Discrete, false, vec![fam(0, true, true)]),
        candidate(DeviceType::Integrated, true, vec![fam(1, true, true)]),
    ];
    let sel = select_device(&cs).unwrap();
    assert_eq!(sel.device_index, 1);
}

#[test]
fn family_must_do_graphics_and_present() {
    let cs = vec![
        candidate(
            DeviceType::Discrete,
            true,
            vec![fam(0, true, false), fam(1, false, true)],
        ),
        candidate(DeviceType::Cpu, true, vec![fam(2, true, true)]),
    ];
    let sel = select_device(&cs).unwrap();
    assert_eq!(sel.device_index, 1);
    assert_eq!(sel.queue_family_id, 2);
}

#[test]
fn first_qualifying_family_wins() {
    let cs = vec![candidate(
        DeviceType::Discrete,
        true,
        vec![fam(0, true, false), fam(5, true, true), fam(6, true, true)],
    )];
    let sel = select_device(&cs).unwrap();
    assert_eq!(sel.queue_family_id, 5);
}

#[test]
fn no_eligible_candidate_gives_none() {
    assert_eq!(select_device(&vec![]), None);
    let cs = vec![candidate(DeviceType::Discrete, true, vec![fam(0, true, false)])];
    assert_eq!(select_device(&cs), None);
}

#[test]
fn required_extensions_ask_for_swapchain() {
    assert!(required_device_extensions().khr_swapchain);
}

#[test]
fn queue_request_is_one_queue_at_half_priority() {
    let sel = DeviceSelection { device_index: 0, queue_family_id: 3 };
    let req = queue_request(&sel);
    assert_eq!(req.family_id, 3);
    assert_eq!(req.queue_count, 1);
    assert_eq!(req.priority_milli, 500);
    assert_eq!(QUEUE_PRIORITY_MILLI, 500);
}

#[test]
fn labels_match_driver_class_names() {
    assert_eq!(device_type_label(DeviceType::Discrete), "DiscreteGpu");
    assert_eq!(device_type_label(DeviceType::Integrated), "IntegratedGpu");
    assert_eq!(device_type_label(DeviceType::Virtual), "VirtualGpu");
    assert_eq!(device_type_label(DeviceType::Cpu), "Cpu");
    assert_eq!(device_type_label(DeviceType::Other), "Other");
}
