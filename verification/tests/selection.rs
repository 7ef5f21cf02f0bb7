use reverie::device::{
    DeviceType, PhysicalDeviceInfo, QueueFamilies, QueueFamilyInfo, pick_physical_device,
};
use reverie::swapchain::{
    COLOR_SPACE_SRGB_NONLINEAR, FORMAT_B8G8R8A8_SRGB, PRESENT_MODE_FIFO, PRESENT_MODE_MAILBOX,
    SurfaceFormat, choose_extent, choose_image_count, choose_present_mode, choose_surface_format,
};
use reverie::RenderError;

fn family(graphics: bool, present: bool, count: u32) -> QueueFamilyInfo {
    QueueFamilyInfo {
        supports_graphics: graphics,
        supports_present: present,
        queue_count: count,
    }
}

fn device(kind: DeviceType, families: Vec<QueueFamilyInfo>) -> PhysicalDeviceInfo {
    PhysicalDeviceInfo {
        device_type: kind,
        queue_families: families,
    }
}

#[test]
fn picks_discrete_gpu_over_earlier_integrated() {
    let devices = vec![
        device(DeviceType::IntegratedGpu, vec![family(true, true, 1)]),
        device(DeviceType::DiscreteGpu, vec![family(true, true, 4)]),
    ];
    assert_eq!(pick_physical_device(&devices), Ok(1));
}

#[test]
fn falls_back_to_first_suitable_when_no_discrete() {
    let devices = vec![
        device(DeviceType::Cpu, vec![family(false, false, 1)]),
        device(DeviceType::IntegratedGpu, vec![family(true, true, 1)]),
        device(DeviceType::VirtualGpu, vec![family(true, true, 1)]),
    ];
    assert_eq!(pick_physical_device(&devices), Ok(1));
}

#[test]
fn unsuitable_discrete_gpu_is_skipped() {
    // a discrete GPU without present support does not qualify
    let devices = vec![
        device(DeviceType::DiscreteGpu, vec![family(true, false, 1)]),
        device(DeviceType::IntegratedGpu, vec![family(true, true, 1)]),
    ];
    assert_eq!(pick_physical_device(&devices), Ok(1));
}

#[test]
fn no_suitable_device_is_an_error() {
    let devices = vec![
        device(DeviceType::Cpu, vec![family(true, false, 1)]),
        device(DeviceType::Other, vec![family(false, true, 1), family(false, false, 8)]),
    ];
    assert_eq!(pick_physical_device(&devices), Err(RenderError::NoSuitableDevice));
    assert_eq!(
        pick_physical_device(&Vec::new()),
        Err(RenderError::NoSuitableDevice)
    );
}

#[test]
fn queue_families_prefer_one_family_for_both() {
    let families = vec![
        family(true, false, 1),
        family(false, true, 1),
        family(true, true, 2),
    ];
    let qf = QueueFamilies::new(&families).unwrap();
    assert_eq!(qf.graphics_index, 2);
    assert_eq!(qf.present_index, 2);
    assert_eq!(qf.unique_indices(), vec![2]);
}

#[test]
fn queue_families_split_when_no_family_does_both() {
    let families = vec![
        family(false, false, 1),
        family(true, false, 1),
        family(false, true, 1),
    ];
    let qf = QueueFamilies::new(&families).unwrap();
    assert_eq!(qf.graphics_index, 1);
    assert_eq!(qf.present_index, 2);
    assert_eq!(qf.unique_indices(), vec![1, 2]);
}

#[test]
fn queue_families_missing_capability_is_an_error() {
    let families = vec![family(true, false, 1), family(true, false, 2)];
    assert_eq!(QueueFamilies::new(&families), Err(RenderError::NoSuitableDevice));
    // a family with zero queues offers nothing
    let empty = vec![family(true, true, 0)];
    assert_eq!(QueueFamilies::new(&empty), Err(RenderError::NoSuitableDevice));
}

#[test]
fn surface_format_prefers_bgra8_srgb_nonlinear() {
    let other = SurfaceFormat {
        format: 44,
        color_space: COLOR_SPACE_SRGB_NONLINEAR,
    };
    let preferred = SurfaceFormat {
        format: FORMAT_B8G8R8A8_SRGB,
        color_space: COLOR_SPACE_SRGB_NONLINEAR,
    };
    assert_eq!(choose_surface_format(&vec![other, preferred]), preferred);
    // falls back to the first offered format
    let wrong_space = SurfaceFormat {
        format: FORMAT_B8G8R8A8_SRGB,
        color_space: 7,
    };
    assert_eq!(choose_surface_format(&vec![other, wrong_space]), other);
}

#[test]
fn present_mode_prefers_mailbox_then_fifo() {
    assert_eq!(
        choose_present_mode(&vec![PRESENT_MODE_FIFO, PRESENT_MODE_MAILBOX]),
        PRESENT_MODE_MAILBOX
    );
    assert_eq!(choose_present_mode(&vec![PRESENT_MODE_FIFO]), PRESENT_MODE_FIFO);
    assert_eq!(choose_present_mode(&vec![0]), PRESENT_MODE_FIFO);
}

#[test]
fn extent_is_clamped_to_surface_bounds() {
    assert_eq!(choose_extent(800, 600, 1, 4096, 1, 4096), (800, 600));
    assert_eq!(choose_extent(10_000, 5, 640, 4096, 480, 4096), (4096, 480));
    assert_eq!(choose_extent(0, 0, 640, 4096, 480, 4096), (640, 480));
}

#[test]
fn image_count_is_min_plus_one_clamped() {
    assert_eq!(choose_image_count(2, 8), 3);
    assert_eq!(choose_image_count(2, 3), 3);
    assert_eq!(choose_image_count(3, 3), 3);
    // zero maximum means unbounded
    assert_eq!(choose_image_count(2, 0), 3);
}
