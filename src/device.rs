use vstd::prelude::*;

verus! {

/// The kind of a physical device (`VkPhysicalDeviceType`).
#[derive(Debug, Clone, Copy, PartialEq, Eq)]
pub enum DeviceType {
    Other,
    IntegratedGpu,
    DiscreteGpu,
    VirtualGpu,
    Cpu,
    /// A kind this library does not know, by its raw value.
    Unknown(i32),
}

/// The device type that a raw `VkPhysicalDeviceType` value stands for.
pub open spec fn device_type_of(raw: i32) -> DeviceType {
    if raw == 0 {
        DeviceType::Other
    } else if raw == 1 {
        DeviceType::IntegratedGpu
    } else if raw == 2 {
        DeviceType::DiscreteGpu
    } else if raw == 3 {
        DeviceType::VirtualGpu
    } else if raw == 4 {
        DeviceType::Cpu
    } else {
        DeviceType::Unknown(raw)
    }
}

/// The preference for a kind of device, lower first: discrete, integrated,
/// virtual, CPU, other, then kinds not known.
pub open spec fn device_rank(t: DeviceType) -> u32 {
    match t {
        DeviceType::DiscreteGpu => 0,
        DeviceType::IntegratedGpu => 1,
        DeviceType::VirtualGpu => 2,
        DeviceType::Cpu => 3,
        DeviceType::Other => 4,
        DeviceType::Unknown(_) => 5,
    }
}

impl DeviceType {
    pub fn from_raw(raw: i32) -> (r: DeviceType)
        ensures
            r == device_type_of(raw),
    {
        match raw {
            0 => DeviceType::Other,
            1 => DeviceType::IntegratedGpu,
            2 => DeviceType::DiscreteGpu,
            3 => DeviceType::VirtualGpu,
            4 => DeviceType::Cpu,
            _ => DeviceType::Unknown(raw),
        }
    }

    /// The preference for this kind of device, lower first.
    pub fn rank(self) -> (r: u32)
        ensures
            r == device_rank(self),
    {
        match self {
            DeviceType::DiscreteGpu => 0,
            DeviceType::IntegratedGpu => 1,
            DeviceType::VirtualGpu => 2,
            DeviceType::Cpu => 3,
            DeviceType::Other => 4,
            DeviceType::Unknown(_) => 5,
        }
    }
}

/// What the renderer needs to know of a queue family: whether it can run
/// graphics work and whether it can present to the window's surface.
#[derive(Debug, Clone, Copy, PartialEq, Eq)]
pub struct QueueFamilyInfo {
    pub graphics: bool,
    pub present: bool,
}

/// A physical device as the selection sees it: its kind and its queue
/// families, in the driver's order.
#[derive(Debug, PartialEq, Eq)]
pub struct PhysicalDeviceInfo {
    pub device_type: DeviceType,
    pub queue_families: Vec<QueueFamilyInfo>,
}

pub open spec fn family_suitable(f: QueueFamilyInfo) -> bool {
    f.graphics && f.present
}

/// `q` is the first family that can both draw and present.
pub open spec fn is_first_suitable_family(families: Seq<QueueFamilyInfo>, q: int) -> bool {
    &&& 0 <= q < families.len()
    &&& family_suitable(families[q])
    &&& forall|j: int| 0 <= j < q ==> !family_suitable(#[trigger] families[j])
}

/// The device has a family that can both draw and present.
pub open spec fn device_suitable(d: PhysicalDeviceInfo) -> bool {
    exists|q: int| 0 <= q < d.queue_families@.len() && family_suitable(#[trigger] d.queue_families@[q])
}

/// `(i, q)` is the choice among `devices`: device `i` is suitable, no
/// suitable device ranks better, no suitable device before it ranks as well,
/// and `q` is its first family that can both draw and present.
pub open spec fn is_selection(devices: Seq<PhysicalDeviceInfo>, i: int, q: int) -> bool {
    &&& 0 <= i < devices.len()
    &&& device_suitable(devices[i])
    &&& is_first_suitable_family(devices[i].queue_families@, q)
    &&& forall|j: int|
        0 <= j < devices.len() && device_suitable(#[trigger] devices[j]) ==> device_rank(
            devices[i].device_type,
        ) <= device_rank(devices[j].device_type)
    &&& forall|j: int|
        0 <= j < i && device_suitable(#[trigger] devices[j]) ==> device_rank(devices[i].device_type)
            < device_rank(devices[j].device_type)
}

/// The first queue family that can both draw and present, if any.
pub fn first_suitable_family(families: &Vec<QueueFamilyInfo>) -> (r: Option<usize>)
    ensures
        r matches Some(q) ==> is_first_suitable_family(families@, q as int),
        r is None ==> forall|j: int| 0 <= j < families@.len() ==> !family_suitable(#[trigger] families@[j]),
{
    let mut i: usize = 0;
    while i < families.len()
        invariant
            i <= families.len(),
            forall|j: int| 0 <= j < i ==> !family_suitable(#[trigger] families@[j]),
        decreases families.len() - i,
    {
        if families[i].graphics && families[i].present {
            return Some(i);
        }
        i = i + 1;
    }
    None
}

/// Picks the physical device and queue family to render with: among the
/// devices with a family that can both draw and present, the one of the most
/// preferred kind (discrete, integrated, virtual, CPU, other), the first one
/// on a tie; and its first such family. `None` when no device has one.
pub fn select_physical_device(devices: &Vec<PhysicalDeviceInfo>) -> (r: Option<(usize, usize)>)
    ensures
        r is None <==> forall|j: int| 0 <= j < devices@.len() ==> !device_suitable(#[trigger] devices@[j]),
        r matches Some((i, q)) ==> is_selection(devices@, i as int, q as int),
{
    let mut best: Option<(usize, usize, u32)> = None;
    let mut i: usize = 0;
    while i < devices.len()
        invariant
            i <= devices.len(),
            best is None ==> forall|j: int| 0 <= j < i ==> !device_suitable(#[trigger] devices@[j]),
            best matches Some((b, q, rank)) ==> {
                &&& b < i
                &&& device_suitable(devices@[b as int])
                &&& is_first_suitable_family(devices@[b as int].queue_families@, q as int)
                &&& rank == device_rank(devices@[b as int].device_type)
                &&& forall|j: int|
                    0 <= j < i && device_suitable(#[trigger] devices@[j]) ==> rank <= device_rank(
                        devices@[j].device_type,
                    )
                &&& forall|j: int|
                    0 <= j < b && device_suitable(#[trigger] devices@[j]) ==> rank < device_rank(
                        devices@[j].device_type,
                    )
            },
        decreases devices.len() - i,
    {
        let device = &devices[i];
        match first_suitable_family(&device.queue_families) {
            Some(q) => {
                let rank = device.device_type.rank();
                let better = match best {
                    None => true,
                    Some((_, _, best_rank)) => rank < best_rank,
                };
                if better {
                    best = Some((i, q, rank));
                }
            },
            None => {
                assert(!device_suitable(devices@[i as int]));
            },
        }
        i = i + 1;
    }
    match best {
        Some((b, q, _)) => Some((b, q)),
        None => None,
    }
}

/// The selection is a function of the devices: there is at most one choice.
pub proof fn lemma_selection_unique(devices: Seq<PhysicalDeviceInfo>, i1: int, q1: int, i2: int, q2: int)
    requires
        is_selection(devices, i1, q1),
        is_selection(devices, i2, q2),
    ensures
        i1 == i2 && q1 == q2,
{
    if q1 < q2 {
        assert(!family_suitable(devices[i2].queue_families@[q1]));
    } else if q2 < q1 {
        assert(!family_suitable(devices[i1].queue_families@[q2]));
    }
}

/// The extensions every logical device is created with: swapchains and
/// dynamic rendering.
pub fn default_device_extensions() -> (r: Vec<String>)
    ensures
        r@.len() == 2,
        r@[0]@ == "VK_KHR_swapchain"@,
        r@[1]@ == "VK_KHR_dynamic_rendering"@,
{
    let mut r: Vec<String> = Vec::new();
    r.push("VK_KHR_swapchain".to_owned());
    r.push("VK_KHR_dynamic_rendering".to_owned());
    r
}

/// The queues of one family: `(family, 0)` up to `(family, count - 1)`.
pub open spec fn family_queues(family: u32, count: u32) -> Seq<(u32, u32)> {
    Seq::new(count as nat, |k: int| (family, k as u32))
}

/// The queues that requests for `(family, count)` give, family by family in
/// the order of the requests, each family's queues by index.
pub open spec fn queue_layout(requests: Seq<(u32, u32)>) -> Seq<(u32, u32)>
    decreases requests.len(),
{
    if requests.len() == 0 {
        Seq::empty()
    } else {
        queue_layout(requests.drop_last()) + family_queues(
            requests.last().0,
            requests.last().1,
        )
    }
}

/// The `(family, index)` of each queue that a device created with these
/// requests has: one queue per requested priority, in request order.
pub fn queue_indices(requests: &Vec<(u32, u32)>) -> (r: Vec<(u32, u32)>)
    ensures
        r@ == queue_layout(requests@),
{
    let mut r: Vec<(u32, u32)> = Vec::new();
    let mut i: usize = 0;
    while i < requests.len()
        invariant
            i <= requests.len(),
            r@ == queue_layout(requests@.subrange(0, i as int)),
        decreases requests.len() - i,
    {
        let (family, count) = requests[i];
        let ghost before = r@;
        let mut k: u32 = 0;
        while k < count
            invariant
                k <= count,
                r@ == before + family_queues(family, k),
            decreases count - k,
        {
            r.push((family, k));
            assert(before + family_queues(family, (k + 1) as u32) =~= before + family_queues(family, k)
                + seq![(family, k)]);
            k = k + 1;
        }
        assert(requests@.subrange(0, i + 1).drop_last() =~= requests@.subrange(0, i as int));
        i = i + 1;
    }
    assert(requests@.subrange(0, requests.len() as int) =~= requests@);
    r
}

} // verus!
