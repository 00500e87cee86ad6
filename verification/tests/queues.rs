use asaogea::gfx::device::{
    check_physical_device, required_extensions_available, use_validation_layer, DeviceError, QueueFamilyIndices,
};
use asaogea::gfx::object_names::{object_type_of, ObjectKind};
use asaogea::gfx::queues::{
    find_best_suited_queue, remove_family, select_queues, Queue, QueueCaps, QueueFlag, QueueSelection, Queues,
};

fn caps(graphics: bool, compute: bool, transfer: bool) -> QueueCaps {
    QueueCaps { graphics, compute, transfer }
}

/// A common layout: an all-purpose family that presents, a compute family and a transfer
/// family.
fn typical() -> (Vec<QueueCaps>, Vec<bool>) {
    (vec![caps(true, true, true), caps(false, true, true), caps(false, false, true)], vec![true, false, false])
}

#[test]
fn caps_contains_and_intersects() {
    let all = caps(true, true, true);
    assert!(all.contains(&QueueCaps::graphics_only()));
    assert!(all.contains(&QueueCaps::empty()));
    assert!(!QueueCaps::compute_only().contains(&QueueCaps::graphics_only()));
    assert!(QueueCaps::transfer_only().intersects(&all));
    assert!(!QueueCaps::transfer_only().intersects(&QueueCaps::compute_only()));
    assert!(!all.intersects(&QueueCaps::empty()));
}

#[test]
fn best_suited_is_the_last_family_that_passes() {
    let queues = vec![
        Queue::new(0, caps(true, true, true), true),
        Queue::new(1, caps(false, true, false), false),
        Queue::new(2, caps(true, false, false), false),
    ];
    let none: Vec<QueueCaps> = vec![];
    assert_eq!(find_best_suited_queue(&queues, &QueueCaps::compute_only(), false, &none), Some(1));
    assert_eq!(find_best_suited_queue(&queues, &QueueCaps::graphics_only(), false, &none), Some(2));
    assert_eq!(find_best_suited_queue(&queues, &QueueCaps::graphics_only(), true, &none), Some(0));
    assert_eq!(find_best_suited_queue(&queues, &QueueCaps::transfer_only(), false, &none), Some(0));
    assert_eq!(find_best_suited_queue(&vec![], &QueueCaps::empty(), false, &none), None);
    // The score of the desired capabilities does not change the choice.
    let desired = vec![caps(false, true, true)];
    assert_eq!(find_best_suited_queue(&queues, &QueueCaps::graphics_only(), false, &desired), Some(2));
}

#[test]
fn remove_family_keeps_the_order_of_the_others() {
    let queues = vec![
        Queue::new(0, caps(true, false, false), true),
        Queue::new(1, caps(false, true, false), false),
        Queue::new(2, caps(false, false, true), false),
    ];
    let without_one = remove_family(&queues, Some(1));
    assert_eq!(without_one.iter().map(|q| q.index()).collect::<Vec<_>>(), vec![0, 2]);
    assert_eq!(remove_family(&queues, None), queues);
    assert_eq!(remove_family(&queues, Some(7)), queues);
}

#[test]
fn typical_device_selection() {
    let (props, present) = typical();
    let queues = Queues::search(&props, &present);
    assert_eq!(
        queues.selection(),
        QueueSelection { graphic: Some(0), compute: Some(1), async_compute: Some(1), transfer: Some(2), present: None }
    );
    assert_eq!(queues.families().len(), 3);
    assert_eq!(queues.families()[2], Queue::new(2, caps(false, false, true), false));
    assert_eq!(queues.find_queue(&QueueFlag::Graphic).map(|q| q.index()), Some(0));
    assert_eq!(queues.find_queue(&QueueFlag::AsyncCompute).map(|q| q.index()), Some(1));
    assert!(queues.find_queue(&QueueFlag::Present).is_none());
}

#[test]
fn present_family_is_never_the_graphic_family() {
    let props = vec![caps(true, true, true), caps(false, true, true), caps(false, false, true)];
    let present = vec![true, false, true];
    let queues = Queues::search(&props, &present);
    let sel = queues.selection();
    assert_eq!(sel.graphic, Some(0));
    assert_eq!(sel.present, Some(2));
    assert_eq!(sel.async_compute, Some(1));
    // No dedicated transfer family is left, so transfer falls back on any transfer family.
    assert_eq!(sel.transfer, Some(2));
    assert_eq!(
        queues.preferred(),
        vec![
            (QueueFlag::Graphic, 0),
            (QueueFlag::Compute, 1),
            (QueueFlag::AsyncCompute, 1),
            (QueueFlag::Transfer, 2),
            (QueueFlag::Present, 2),
        ]
    );
    assert_eq!(
        queues.unique_families(),
        vec![
            (0, vec![QueueFlag::Graphic]),
            (1, vec![QueueFlag::Compute, QueueFlag::AsyncCompute]),
            (2, vec![QueueFlag::Transfer, QueueFlag::Present]),
        ]
    );
}

#[test]
fn single_family_device() {
    let queues = Queues::search(&vec![caps(true, true, true)], &vec![true]);
    assert_eq!(
        queues.selection(),
        QueueSelection { graphic: Some(0), compute: Some(0), async_compute: None, transfer: Some(0), present: None }
    );
    assert_eq!(queues.unique_families(), vec![(0, vec![QueueFlag::Graphic, QueueFlag::Compute, QueueFlag::Transfer])]);
}

#[test]
fn present_prefers_a_family_other_than_compute() {
    let props = vec![caps(true, false, false), caps(false, true, false), caps(false, false, true)];
    let present = vec![false, true, true];
    let sel = select_queues(&Queues::search(&props, &present).families().clone());
    assert_eq!(sel.present, Some(2));
    // When only the compute family presents, it is taken.
    let present = vec![false, true, false];
    let sel = Queues::search(&props, &present).selection();
    assert_eq!(sel.present, Some(1));
    assert_eq!(sel.async_compute, None);
    assert_eq!(sel.transfer, Some(2));
}

#[test]
fn no_family_at_all() {
    let queues = Queues::search(&vec![], &vec![]);
    assert_eq!(
        queues.selection(),
        QueueSelection { graphic: None, compute: None, async_compute: None, transfer: None, present: None }
    );
    assert!(queues.preferred().is_empty());
    assert!(queues.unique_families().is_empty());
}

#[test]
fn require_family_takes_the_first_match() {
    let queues = vec![
        Queue::new(0, caps(false, false, true), false),
        Queue::new(1, caps(true, true, false), false),
        Queue::new(2, caps(true, false, false), true),
    ];
    let q = Queues::require_family_in_queues(vec![QueueFlag::Graphic], &queues);
    assert_eq!(q.map(|q| q.index()), Some(1));
    let q = Queues::require_family_in_queues(vec![QueueFlag::Graphic, QueueFlag::Present], &queues);
    assert_eq!(q.map(|q| q.index()), Some(2));
    let q = Queues::require_family_in_queues(vec![QueueFlag::Transfer, QueueFlag::Compute], &queues);
    assert_eq!(q.map(|q| q.index()), Some(0));
    let q = Queues::require_family_in_queues(vec![QueueFlag::Present], &queues);
    assert!(q.is_none());
    let q = Queues::require_family_in_queues(vec![QueueFlag::AsyncCompute, QueueFlag::Present], &queues);
    assert!(q.is_none());
}

#[test]
fn queue_family_indices_take_the_first_of_each_kind() {
    let (props, present) = typical();
    let indices = QueueFamilyIndices::get(&props, &present).unwrap();
    assert_eq!(indices.graphics, 0);
    assert_eq!(indices.present, 0);
    assert_eq!(indices.transfer, Some(0));
    assert_eq!(indices.compute, Some(0));

    let props = vec![caps(false, false, true), caps(false, true, false), caps(true, false, false)];
    let indices = QueueFamilyIndices::get(&props, &vec![false, false, true]).unwrap();
    assert_eq!((indices.graphics, indices.present, indices.transfer, indices.compute), (2, 2, Some(0), Some(1)));

    let indices = QueueFamilyIndices::get(&vec![caps(true, false, false)], &vec![true]).unwrap();
    assert_eq!((indices.transfer, indices.compute), (None, None));
}

#[test]
fn queue_family_indices_errors() {
    let props = vec![caps(false, true, true)];
    assert_eq!(QueueFamilyIndices::get(&props, &vec![false]).unwrap_err(), DeviceError::NoPresentFamily);
    assert_eq!(QueueFamilyIndices::get(&props, &vec![true]).unwrap_err(), DeviceError::NoGraphicFamily);
    // A missing present family is reported before a missing graphic family.
    assert_eq!(QueueFamilyIndices::get(&vec![], &vec![]).unwrap_err(), DeviceError::NoPresentFamily);
}

#[test]
fn physical_device_checks_in_order() {
    let props = vec![caps(true, true, true), caps(false, true, true), caps(false, false, true)];
    let good = Queues::search(&props, &vec![true, false, true]);
    assert_eq!(check_physical_device(true, &good, 3, 2, true), Ok(()));
    assert_eq!(check_physical_device(false, &good, 3, 2, true), Err(DeviceError::NotDiscreteGpu));
    assert_eq!(check_physical_device(true, &good, 0, 2, true), Err(DeviceError::InsufficientSwapchainSupport));
    assert_eq!(check_physical_device(true, &good, 3, 0, true), Err(DeviceError::InsufficientSwapchainSupport));
    assert_eq!(check_physical_device(true, &good, 3, 2, false), Err(DeviceError::MissingExtensions));

    let no_present = Queues::search(&props, &vec![true, false, false]);
    assert_eq!(check_physical_device(true, &no_present, 3, 2, true), Err(DeviceError::NoPresentQueue));

    let no_graphic = Queues::search(&vec![caps(false, true, true)], &vec![true]);
    assert_eq!(check_physical_device(true, &no_graphic, 3, 2, true), Err(DeviceError::NoGraphicQueue));

    let no_compute = Queues::search(&vec![caps(true, false, false), caps(false, false, true)], &vec![false, true]);
    assert_eq!(check_physical_device(true, &no_compute, 3, 2, true), Err(DeviceError::NoComputeQueue));
    // The discrete GPU check comes first.
    assert_eq!(check_physical_device(false, &no_graphic, 0, 0, false), Err(DeviceError::NotDiscreteGpu));
}

#[test]
fn extension_names_must_all_be_available() {
    let available = vec![b"VK_KHR_swapchain".to_vec(), b"VK_KHR_maintenance1".to_vec()];
    assert!(required_extensions_available(&vec![b"VK_KHR_swapchain".to_vec()], &available));
    assert!(required_extensions_available(&vec![], &available));
    assert!(!required_extensions_available(&vec![b"VK_KHR_swapchain".to_vec(), b"VK_EXT_other".to_vec()], &available));
    assert!(!required_extensions_available(&vec![b"VK_KHR_swap".to_vec()], &available));
}

#[test]
fn validation_layer_only_when_offered() {
    let offered = vec![b"VK_LAYER_LUNARG_monitor".to_vec(), b"VK_LAYER_KHRONOS_validation".to_vec()];
    assert!(use_validation_layer(true, &offered));
    assert!(!use_validation_layer(false, &offered));
    assert!(!use_validation_layer(true, &vec![b"VK_LAYER_LUNARG_monitor".to_vec()]));
}

#[test]
fn object_types_for_debug_names() {
    assert_eq!(object_type_of(ObjectKind::Instance), 1);
    assert_eq!(object_type_of(ObjectKind::Buffer), 9);
    assert_eq!(object_type_of(ObjectKind::CommandPool), 25);
    assert_eq!(object_type_of(ObjectKind::SurfaceKhr), 1000000000);
    assert_eq!(object_type_of(ObjectKind::SwapchainKhr), 1000001000);
}
