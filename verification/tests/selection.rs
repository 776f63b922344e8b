use device_bootstrap::device::{select_physical_device, SelectionError};
use device_bootstrap::driver::{DISCRETE_GPU, GRAPHICS_BIT, TRANSFER_BIT};
use device_bootstrap::queue::{
    queue_requests, queue_slots, requests_fit, select_queue_families, QueueFamily, QueueRequest,
    QueueSelection, QueueSlot,
};

const OTHER: i32 = 0;
const INTEGRATED: i32 = 1;
const DISCRETE: i32 = 2;
const VIRTUAL: i32 = 3;
const CPU: i32 = 4;

fn family(graphics: bool, transfer: bool, count: u32) -> QueueFamily {
    QueueFamily::from_capabilities(graphics, transfer, count)
}

#[test]
fn constants_match_the_driver_binding() {
    assert_eq!(DISCRETE_GPU, ash::vk::PhysicalDeviceType::DISCRETE_GPU.as_raw());
    assert_eq!(GRAPHICS_BIT, ash::vk::QueueFlags::GRAPHICS.as_raw());
    assert_eq!(TRANSFER_BIT, ash::vk::QueueFlags::TRANSFER.as_raw());
}

#[test]
fn last_discrete_gpu_wins() {
    let tags = vec![DISCRETE, INTEGRATED, DISCRETE];
    assert_eq!(select_physical_device(&tags), Ok(2));
}

#[test]
fn discrete_gpu_followed_by_others_is_kept() {
    let tags = vec![CPU, DISCRETE, INTEGRATED, VIRTUAL, OTHER];
    assert_eq!(select_physical_device(&tags), Ok(1));
}

#[test]
fn single_discrete_gpu_is_chosen() {
    assert_eq!(select_physical_device(&vec![DISCRETE]), Ok(0));
}

#[test]
fn no_discrete_gpu_fails() {
    let tags = vec![INTEGRATED, VIRTUAL, CPU, OTHER];
    assert_eq!(select_physical_device(&tags), Err(SelectionError::NoDiscreteGpu));
}

#[test]
fn no_device_at_all_fails() {
    assert_eq!(select_physical_device(&Vec::new()), Err(SelectionError::NoDiscreteGpu));
}

#[test]
fn unknown_device_type_is_not_discrete() {
    let tags = vec![-1, 5, i32::MAX, i32::MIN];
    assert_eq!(select_physical_device(&tags), Err(SelectionError::NoDiscreteGpu));
}

#[test]
fn dedicated_transfer_family_is_preferred() {
    let families =
        vec![family(false, true, 1), family(true, true, 1), family(true, false, 1)];
    assert_eq!(
        select_queue_families(&families),
        Ok(QueueSelection { graphics: 2, transfer: 0 })
    );
}

#[test]
fn dedicated_transfer_family_before_the_last_graphics_family() {
    let families =
        vec![family(false, true, 1), family(true, true, 1), family(true, false, 0)];
    assert_eq!(
        select_queue_families(&families),
        Ok(QueueSelection { graphics: 1, transfer: 0 })
    );
    let families =
        vec![family(false, true, 1), family(true, true, 1), family(false, false, 1)];
    assert_eq!(
        select_queue_families(&families),
        Ok(QueueSelection { graphics: 1, transfer: 0 })
    );
}

#[test]
fn combined_family_serves_both() {
    let families = vec![family(true, true, 1)];
    assert_eq!(
        select_queue_families(&families),
        Ok(QueueSelection { graphics: 0, transfer: 0 })
    );
}

#[test]
fn later_dedicated_transfer_family_replaces_combined_one() {
    let families = vec![family(true, true, 4), family(false, true, 2)];
    assert_eq!(
        select_queue_families(&families),
        Ok(QueueSelection { graphics: 0, transfer: 1 })
    );
}

#[test]
fn last_dedicated_transfer_family_wins() {
    let families = vec![
        family(false, true, 1),
        family(true, true, 1),
        family(false, true, 1),
        family(true, true, 1),
    ];
    assert_eq!(
        select_queue_families(&families),
        Ok(QueueSelection { graphics: 3, transfer: 2 })
    );
}

#[test]
fn first_combined_family_is_kept_for_transfer() {
    let families = vec![family(true, false, 1), family(true, true, 1), family(true, true, 1)];
    assert_eq!(
        select_queue_families(&families),
        Ok(QueueSelection { graphics: 2, transfer: 1 })
    );
}

#[test]
fn families_without_queues_are_never_selected() {
    let families = vec![
        family(true, true, 1),
        family(true, false, 0),
        family(false, true, 0),
        family(true, true, 0),
    ];
    assert_eq!(
        select_queue_families(&families),
        Ok(QueueSelection { graphics: 0, transfer: 0 })
    );
}

#[test]
fn only_empty_families_fail() {
    let families = vec![family(true, true, 0), family(false, true, 0)];
    assert_eq!(select_queue_families(&families), Err(SelectionError::NoGraphicsQueue));
}

#[test]
fn no_family_fails_for_graphics() {
    assert_eq!(select_queue_families(&Vec::new()), Err(SelectionError::NoGraphicsQueue));
}

#[test]
fn missing_graphics_family_fails() {
    let families = vec![family(false, true, 2), family(false, false, 1)];
    assert_eq!(select_queue_families(&families), Err(SelectionError::NoGraphicsQueue));
}

#[test]
fn missing_transfer_family_fails() {
    let families = vec![family(true, false, 2), family(false, true, 0)];
    assert_eq!(select_queue_families(&families), Err(SelectionError::NoTransferQueue));
}

#[test]
fn other_capability_bits_are_ignored() {
    let compute_and_sparse: u32 = 0b1010;
    let families = vec![
        QueueFamily::new(compute_and_sparse, 8),
        QueueFamily::new(0b1111, 16),
        QueueFamily::new(0b1110, 2),
    ];
    assert!(!families[0].has_graphics());
    assert!(!families[0].has_transfer());
    assert!(families[1].has_graphics());
    assert!(families[1].has_transfer());
    assert!(!families[2].has_graphics());
    assert!(families[2].has_transfer());
    assert_eq!(
        select_queue_families(&families),
        Ok(QueueSelection { graphics: 1, transfer: 2 })
    );
}

#[test]
fn capabilities_become_flag_bits() {
    assert_eq!(family(false, false, 3), QueueFamily { flags: 0, count: 3 });
    assert_eq!(family(true, false, 3), QueueFamily { flags: 1, count: 3 });
    assert_eq!(family(false, true, 3), QueueFamily { flags: 4, count: 3 });
    assert_eq!(family(true, true, 3), QueueFamily { flags: 5, count: 3 });
    assert_eq!(QueueFamily::new(5, 3), family(true, true, 3));
}

#[test]
fn one_queue_is_requested_per_choice() {
    let selection = QueueSelection { graphics: 1, transfer: 0 };
    assert_eq!(
        queue_requests(&selection),
        vec![
            QueueRequest { family: 1, queue_count: 1 },
            QueueRequest { family: 0, queue_count: 1 }
        ]
    );
    assert_eq!(
        queue_slots(&selection),
        vec![QueueSlot { family: 1, index: 0 }, QueueSlot { family: 0, index: 0 }]
    );
}

#[test]
fn shared_family_is_requested_twice() {
    let selection = QueueSelection { graphics: 2, transfer: 2 };
    assert_eq!(
        queue_requests(&selection),
        vec![
            QueueRequest { family: 2, queue_count: 1 },
            QueueRequest { family: 2, queue_count: 1 }
        ]
    );
}

#[test]
fn chosen_requests_fit_the_families() {
    let families =
        vec![family(false, true, 1), family(true, true, 1), family(true, false, 1)];
    let selection = select_queue_families(&families).unwrap();
    assert!(requests_fit(&families, &queue_requests(&selection)));
}

#[test]
fn requests_beyond_the_families_do_not_fit() {
    let families = vec![family(true, true, 1), family(false, true, 0)];
    assert!(requests_fit(&families, &vec![QueueRequest { family: 0, queue_count: 1 }]));
    assert!(requests_fit(&families, &Vec::new()));
    assert!(!requests_fit(&families, &vec![QueueRequest { family: 0, queue_count: 2 }]));
    assert!(!requests_fit(&families, &vec![QueueRequest { family: 0, queue_count: 0 }]));
    assert!(!requests_fit(&families, &vec![QueueRequest { family: 1, queue_count: 1 }]));
    assert!(!requests_fit(&families, &vec![QueueRequest { family: 2, queue_count: 1 }]));
    assert!(!requests_fit(
        &families,
        &vec![
            QueueRequest { family: 0, queue_count: 1 },
            QueueRequest { family: 7, queue_count: 1 }
        ]
    ));
}
