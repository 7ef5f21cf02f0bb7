//! Physical-device and queue-family selection.
//!
//! The surrounding program enumerates the adapters and their queue
//! families into plain records; the functions here make the choices the
//! renderer's initialization depends on, with the selection rule stated
//! in the contract: require a graphics-capable family and present
//! support, prefer a discrete GPU, and resolve the two queue family
//! indices (which may coincide).

use vstd::prelude::*;

use crate::RenderError;

verus! {

/// The adapter kind the driver reports.
#[derive(Clone, Copy, Debug, PartialEq, Eq, Structural)]
pub enum DeviceType {
    DiscreteGpu,
    IntegratedGpu,
    VirtualGpu,
    Cpu,
    Other,
}

/// What one queue family offers.
#[derive(Clone, Copy, Debug, PartialEq, Eq, Structural)]
pub struct QueueFamilyInfo {
    /// The family advertises graphics operations.
    pub supports_graphics: bool,
    /// The family can present to the target surface.
    pub supports_present: bool,
    /// How many queues the family offers.
    pub queue_count: u32,
}

/// One enumerated adapter: its kind and its queue families.
pub struct PhysicalDeviceInfo {
    /// The adapter kind.
    pub device_type: DeviceType,
    /// The adapter's queue families, in enumeration order.
    pub queue_families: Vec<QueueFamilyInfo>,
}

/// A usable graphics family: graphics-capable with at least one queue.
pub open spec fn family_has_graphics(f: QueueFamilyInfo) -> bool {
    f.supports_graphics && f.queue_count > 0
}

/// A usable present family: surface support with at least one queue.
pub open spec fn family_has_present(f: QueueFamilyInfo) -> bool {
    f.supports_present && f.queue_count > 0
}

/// The device offers some usable graphics family.
pub open spec fn device_has_graphics(d: PhysicalDeviceInfo) -> bool {
    exists|i: int|
        0 <= i < d.queue_families@.len() && family_has_graphics(#[trigger] d.queue_families@[i])
}

/// The device offers some usable present family.
pub open spec fn device_has_present(d: PhysicalDeviceInfo) -> bool {
    exists|i: int|
        0 <= i < d.queue_families@.len() && family_has_present(#[trigger] d.queue_families@[i])
}

/// A device qualifies when it can both draw and present.
pub open spec fn device_is_suitable(d: PhysicalDeviceInfo) -> bool {
    device_has_graphics(d) && device_has_present(d)
}

/// The device is a discrete GPU.
pub open spec fn device_is_discrete(d: PhysicalDeviceInfo) -> bool {
    d.device_type is DiscreteGpu
}

/// Whether `d` qualifies: it has a graphics-capable queue family and
/// one with present support.
pub fn check_device_suitable(d: &PhysicalDeviceInfo) -> (r: bool)
    ensures
        r == device_is_suitable(*d),
{
    let mut has_graphics = false;
    let mut has_present = false;
    let mut i: usize = 0;
    while i < d.queue_families.len()
        invariant
            i <= d.queue_families@.len(),
            has_graphics == exists|k: int|
                0 <= k < i && family_has_graphics(#[trigger] d.queue_families@[k]),
            has_present == exists|k: int|
                0 <= k < i && family_has_present(#[trigger] d.queue_families@[k]),
        decreases d.queue_families@.len() - i,
    {
        let f = d.queue_families[i];
        if f.supports_graphics && f.queue_count > 0 {
            has_graphics = true;
        }
        if f.supports_present && f.queue_count > 0 {
            has_present = true;
        }
        i = i + 1;
    }
    has_graphics && has_present
}

/// Picks the physical device: the first suitable discrete GPU when one
/// exists, otherwise the first suitable device, otherwise
/// `NoSuitableDevice`.
pub fn pick_physical_device(devices: &Vec<PhysicalDeviceInfo>) -> (r: Result<usize, RenderError>)
    ensures
        match r {
            Ok(i) => {
                &&& 0 <= i < devices@.len()
                &&& device_is_suitable(devices@[i as int])
                &&& device_is_discrete(devices@[i as int]) ==> forall|k: int|
                    0 <= k < i ==> !(device_is_suitable(#[trigger] devices@[k])
                        && device_is_discrete(devices@[k]))
                &&& !device_is_discrete(devices@[i as int]) ==> {
                    &&& forall|k: int|
                        0 <= k < devices@.len() ==> !(device_is_suitable(#[trigger] devices@[k])
                            && device_is_discrete(devices@[k]))
                    &&& forall|k: int| 0 <= k < i ==> !device_is_suitable(#[trigger] devices@[k])
                }
            },
            Err(e) => {
                &&& e == RenderError::NoSuitableDevice
                &&& forall|k: int|
                    0 <= k < devices@.len() ==> !device_is_suitable(#[trigger] devices@[k])
            },
        },
{
    let mut fallback: Option<usize> = None;
    let mut i: usize = 0;
    while i < devices.len()
        invariant
            i <= devices@.len(),
            forall|k: int|
                0 <= k < i ==> !(device_is_suitable(#[trigger] devices@[k]) && device_is_discrete(
                    devices@[k],
                )),
            match fallback {
                Some(f) => {
                    &&& 0 <= f < i
                    &&& device_is_suitable(devices@[f as int])
                    &&& !device_is_discrete(devices@[f as int])
                    &&& forall|k: int| 0 <= k < f ==> !device_is_suitable(#[trigger] devices@[k])
                },
                None => forall|k: int| 0 <= k < i ==> !device_is_suitable(#[trigger] devices@[k]),
            },
        decreases devices@.len() - i,
    {
        if check_device_suitable(&devices[i]) {
            if devices[i].device_type == DeviceType::DiscreteGpu {
                return Ok(i);
            }
            if fallback.is_none() {
                fallback = Some(i);
            }
        }
        i = i + 1;
    }
    match fallback {
        Some(f) => Ok(f),
        None => Err(RenderError::NoSuitableDevice),
    }
}

/// The two resolved queue family indices; they may coincide.
#[derive(Clone, Copy, Debug, PartialEq, Eq, Structural)]
pub struct QueueFamilies {
    /// Family the graphics queue is taken from.
    pub graphics_index: usize,
    /// Family used for presentation.
    pub present_index: usize,
}

impl QueueFamilies {
    /// Resolves the graphics and present families: the first family
    /// offering both when one exists, otherwise the first graphics
    /// family and the first present family; `NoSuitableDevice` when
    /// either is missing.
    pub fn new(families: &Vec<QueueFamilyInfo>) -> (r: Result<QueueFamilies, RenderError>)
        ensures
            match r {
                Ok(qf) => {
                    &&& 0 <= qf.graphics_index < families@.len()
                    &&& 0 <= qf.present_index < families@.len()
                    &&& family_has_graphics(families@[qf.graphics_index as int])
                    &&& family_has_present(families@[qf.present_index as int])
                    &&& if qf.graphics_index == qf.present_index {
                        forall|k: int|
                            0 <= k < qf.graphics_index ==> !(family_has_graphics(
                                #[trigger] families@[k],
                            ) && family_has_present(families@[k]))
                    } else {
                        &&& forall|k: int|
                            0 <= k < families@.len() ==> !(family_has_graphics(
                                #[trigger] families@[k],
                            ) && family_has_present(families@[k]))
                        &&& forall|k: int|
                            0 <= k < qf.graphics_index ==> !family_has_graphics(
                                #[trigger] families@[k],
                            )
                        &&& forall|k: int|
                            0 <= k < qf.present_index ==> !family_has_present(
                                #[trigger] families@[k],
                            )
                    }
                },
                Err(e) => {
                    &&& e == RenderError::NoSuitableDevice
                    &&& (forall|k: int|
                        0 <= k < families@.len() ==> !family_has_graphics(#[trigger] families@[k]))
                        || (forall|k: int|
                        0 <= k < families@.len() ==> !family_has_present(#[trigger] families@[k]))
                },
            },
    {
        let mut first_graphics: Option<usize> = None;
        let mut first_present: Option<usize> = None;
        let mut i: usize = 0;
        while i < families.len()
            invariant
                i <= families@.len(),
                forall|k: int|
                    0 <= k < i ==> !(family_has_graphics(#[trigger] families@[k])
                        && family_has_present(families@[k])),
                match first_graphics {
                    Some(g) => {
                        &&& 0 <= g < i
                        &&& family_has_graphics(families@[g as int])
                        &&& forall|k: int|
                            0 <= k < g ==> !family_has_graphics(#[trigger] families@[k])
                    },
                    None => forall|k: int|
                        0 <= k < i ==> !family_has_graphics(#[trigger] families@[k]),
                },
                match first_present {
                    Some(p) => {
                        &&& 0 <= p < i
                        &&& family_has_present(families@[p as int])
                        &&& forall|k: int|
                            0 <= k < p ==> !family_has_present(#[trigger] families@[k])
                    },
                    None => forall|k: int|
                        0 <= k < i ==> !family_has_present(#[trigger] families@[k]),
                },
            decreases families@.len() - i,
        {
            let f = families[i];
            let graphics_here = f.supports_graphics && f.queue_count > 0;
            let present_here = f.supports_present && f.queue_count > 0;
            if graphics_here && present_here {
                return Ok(QueueFamilies { graphics_index: i, present_index: i });
            }
            if graphics_here && first_graphics.is_none() {
                first_graphics = Some(i);
            }
            if present_here && first_present.is_none() {
                first_present = Some(i);
            }
            i = i + 1;
        }
        match (first_graphics, first_present) {
            (Some(g), Some(p)) => Ok(QueueFamilies { graphics_index: g, present_index: p }),
            _ => Err(RenderError::NoSuitableDevice),
        }
    }

    /// The de-duplicated family indices the logical device is created
    /// with.
    pub fn unique_indices(&self) -> (r: Vec<usize>)
        ensures
            self.graphics_index == self.present_index ==> r@ == seq![self.graphics_index],
            self.graphics_index != self.present_index ==> r@ == seq![
                self.graphics_index,
                self.present_index,
            ],
    {
        let mut r: Vec<usize> = Vec::new();
        r.push(self.graphics_index);
        if self.present_index != self.graphics_index {
            r.push(self.present_index);
        }
        proof {
            if self.graphics_index == self.present_index {
                assert(r@ =~= seq![self.graphics_index]);
            } else {
                assert(r@ =~= seq![self.graphics_index, self.present_index]);
            }
        }
        r
    }
}

} // verus!
