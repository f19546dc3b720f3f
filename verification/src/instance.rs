//! Bootstrap capability selection: checking an instance's version, layers
//! and extensions, and picking the first physical device that offers the
//! required version, the required device extensions, and a queue family
//! with combined graphics and compute support. Selection runs once at
//! startup; finding no acceptable candidate is fatal.

use vstd::prelude::*;

verus! {

/// The queue-capability bit for graphics work.
pub const GRAPHICS_QUEUE_FLAG: u32 = 0x1;

/// The queue-capability bit for compute work.
pub const COMPUTE_QUEUE_FLAG: u32 = 0x2;

/// A queue family that supports both graphics and compute work.
pub open spec fn supports_graphics_compute(flags: u32) -> bool {
    flags & (GRAPHICS_QUEUE_FLAG | COMPUTE_QUEUE_FLAG) == (GRAPHICS_QUEUE_FLAG
        | COMPUTE_QUEUE_FLAG)
}

/// `target` occurs among `names`.
pub open spec fn name_present(names: Seq<Vec<u8>>, target: Seq<u8>) -> bool {
    exists|i: int| 0 <= i < names.len() && #[trigger] names[i]@ == target
}

/// Every required name occurs among the available ones.
pub open spec fn all_names_present(available: Seq<Vec<u8>>, required: Seq<Vec<u8>>) -> bool {
    forall|i: int| 0 <= i < required.len() ==> name_present(available, #[trigger] required[i]@)
}

/// What one physical device reports at selection time: its API version, its
/// device extension names, and each queue family's capability flags.
pub struct PhysicalDeviceInfo {
    pub api_version: u32,
    pub extensions: Vec<Vec<u8>>,
    pub queue_family_flags: Vec<u32>,
}

/// A candidate is acceptable when it offers the required API version, every
/// required device extension, and some queue family with combined graphics
/// and compute support.
pub open spec fn device_acceptable(
    info: PhysicalDeviceInfo,
    required_version: u32,
    required_extensions: Seq<Vec<u8>>,
) -> bool {
    &&& info.api_version >= required_version
    &&& all_names_present(info.extensions@, required_extensions)
    &&& exists|i: int|
        0 <= i < info.queue_family_flags@.len() && supports_graphics_compute(
            #[trigger] info.queue_family_flags@[i],
        )
}

/// Whether two byte-string names are the same name.
pub fn bytes_equal(a: &Vec<u8>, b: &Vec<u8>) -> (r: bool)
    ensures
        r == (a@ == b@),
{
    if a.len() != b.len() {
        return false;
    }
    let mut i: usize = 0;
    while i < a.len()
        invariant
            i <= a@.len(),
            a@.len() == b@.len(),
            forall|j: int| 0 <= j < i ==> a@[j] == b@[j],
        decreases a@.len() - i,
    {
        if a[i] != b[i] {
            return false;
        }
        i = i + 1;
    }
    proof {
        assert(a@ =~= b@);
    }
    true
}

/// Whether `target` occurs among `names`.
pub fn contains_name(names: &Vec<Vec<u8>>, target: &Vec<u8>) -> (r: bool)
    ensures
        r == name_present(names@, target@),
{
    let mut i: usize = 0;
    while i < names.len()
        invariant
            i <= names@.len(),
            forall|j: int| 0 <= j < i ==> #[trigger] names@[j]@ != target@,
        decreases names@.len() - i,
    {
        if bytes_equal(&names[i], target) {
            proof {
                assert(names@[i as int]@ == target@);
            }
            return true;
        }
        i = i + 1;
    }
    false
}

/// Scans `required` for the first name not among `available`: `None` means
/// everything required is available; `Some(i)` names the first missing
/// requirement, for the fatal diagnostic.
pub fn missing_required_name(available: &Vec<Vec<u8>>, required: &Vec<Vec<u8>>) -> (r: Option<
    usize,
>)
    ensures
        match r {
            None => all_names_present(available@, required@),
            Some(i) => {
                &&& i < required@.len()
                &&& !name_present(available@, required@[i as int]@)
                &&& forall|j: int|
                    0 <= j < i ==> name_present(available@, #[trigger] required@[j]@)
            },
        },
{
    let mut i: usize = 0;
    while i < required.len()
        invariant
            i <= required@.len(),
            forall|j: int| 0 <= j < i ==> name_present(available@, #[trigger] required@[j]@),
        decreases required@.len() - i,
    {
        if !contains_name(available, &required[i]) {
            return Some(i);
        }
        i = i + 1;
    }
    None
}

/// Scans a device's queue families for the first with combined graphics and
/// compute support.
pub fn find_graphics_queue_family(queue_family_flags: &Vec<u32>) -> (r: Option<usize>)
    ensures
        match r {
            Some(i) => {
                &&& i < queue_family_flags@.len()
                &&& supports_graphics_compute(queue_family_flags@[i as int])
                &&& forall|j: int|
                    0 <= j < i ==> !supports_graphics_compute(#[trigger] queue_family_flags@[j])
            },
            None => forall|j: int|
                0 <= j < queue_family_flags@.len() ==> !supports_graphics_compute(
                    #[trigger] queue_family_flags@[j],
                ),
        },
{
    let mut i: usize = 0;
    while i < queue_family_flags.len()
        invariant
            i <= queue_family_flags@.len(),
            forall|j: int|
                0 <= j < i ==> !supports_graphics_compute(#[trigger] queue_family_flags@[j]),
        decreases queue_family_flags@.len() - i,
    {
        let flags = queue_family_flags[i];
        if flags & (GRAPHICS_QUEUE_FLAG | COMPUTE_QUEUE_FLAG) == (GRAPHICS_QUEUE_FLAG
            | COMPUTE_QUEUE_FLAG) {
            return Some(i);
        }
        i = i + 1;
    }
    None
}

/// Judges one candidate: its first graphics-and-compute queue family when it
/// is acceptable, nothing otherwise.
pub fn check_device(
    info: &PhysicalDeviceInfo,
    required_version: u32,
    required_extensions: &Vec<Vec<u8>>,
) -> (r: Option<usize>)
    ensures
        match r {
            Some(q) => {
                &&& device_acceptable(*info, required_version, required_extensions@)
                &&& q < info.queue_family_flags@.len()
                &&& supports_graphics_compute(info.queue_family_flags@[q as int])
                &&& forall|j: int|
                    0 <= j < q ==> !supports_graphics_compute(
                        #[trigger] info.queue_family_flags@[j],
                    )
            },
            None => !device_acceptable(*info, required_version, required_extensions@),
        },
{
    if info.api_version < required_version {
        return None;
    }
    match missing_required_name(&info.extensions, required_extensions) {
        Some(missing) => {
            proof {
                assert(!name_present(info.extensions@, required_extensions@[missing as int]@));
            }
            None
        },
        None => find_graphics_queue_family(&info.queue_family_flags),
    }
}

/// Picks the physical device: the first acceptable candidate, paired with
/// its first graphics-and-compute queue family. `None` — no candidate
/// qualifies — is fatal at bootstrap.
pub fn select_physical_device(
    devices: &Vec<PhysicalDeviceInfo>,
    required_version: u32,
    required_extensions: &Vec<Vec<u8>>,
) -> (r: Option<(usize, usize)>)
    ensures
        match r {
            Some((d, q)) => {
                &&& d < devices@.len()
                &&& device_acceptable(devices@[d as int], required_version, required_extensions@)
                &&& forall|j: int|
                    0 <= j < d ==> !device_acceptable(
                        #[trigger] devices@[j],
                        required_version,
                        required_extensions@,
                    )
                &&& q < devices@[d as int].queue_family_flags@.len()
                &&& supports_graphics_compute(devices@[d as int].queue_family_flags@[q as int])
                &&& forall|j: int|
                    0 <= j < q ==> !supports_graphics_compute(
                        #[trigger] devices@[d as int].queue_family_flags@[j],
                    )
            },
            None => forall|j: int|
                0 <= j < devices@.len() ==> !device_acceptable(
                    #[trigger] devices@[j],
                    required_version,
                    required_extensions@,
                ),
        },
{
    let mut i: usize = 0;
    while i < devices.len()
        invariant
            i <= devices@.len(),
            forall|j: int|
                0 <= j < i ==> !device_acceptable(
                    #[trigger] devices@[j],
                    required_version,
                    required_extensions@,
                ),
        decreases devices@.len() - i,
    {
        match check_device(&devices[i], required_version, required_extensions) {
            Some(q) => {
                return Some((i, q));
            },
            None => {},
        }
        i = i + 1;
    }
    None
}

} // verus!
