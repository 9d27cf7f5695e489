//! Instance and device setup decisions: which instance extensions to ask
//! for, which physical device and queue families to use.

use vstd::prelude::*;
use vstd::string::*;

verus! {

/// `VK_QUEUE_GRAPHICS_BIT`.
pub const QUEUE_GRAPHICS: u32 = 0x1;

/// `VK_QUEUE_TRANSFER_BIT`.
pub const QUEUE_TRANSFER: u32 = 0x4;

/// What the logic reads of one queue family of a physical device: its raw
/// `VkQueueFlags`, and whether it can present to the window's surface.
#[derive(Clone, Copy, Debug, PartialEq, Eq, Structural)]
pub struct QueueFamilyInfo {
    pub queue_flags: u32,
    pub surface_support: bool,
}

/// Calls `ash::vk::QueueFlags::contains` on two raw flag words.  Claims what
/// ash's source computes: every bit of `required` is set in `flags`.
#[verifier::external_body]
fn queue_flags_contain(flags: u32, required: u32) -> (r: bool)
    ensures
        r == (flags & required == required),
{
    ash::vk::QueueFlags::from_raw(flags).contains(ash::vk::QueueFlags::from_raw(required))
}

/// A family that supports graphics commands and presentation alike.
pub open spec fn graphics_and_present(family: QueueFamilyInfo) -> bool {
    family.queue_flags & QUEUE_GRAPHICS == QUEUE_GRAPHICS && family.surface_support
}

/// A family dedicated to transfers: it supports transfer commands and not
/// graphics commands.
pub open spec fn dedicated_transfer(family: QueueFamilyInfo) -> bool {
    family.queue_flags & QUEUE_TRANSFER == QUEUE_TRANSFER && family.queue_flags & QUEUE_GRAPHICS
        != QUEUE_GRAPHICS
}

/// The first queue family that supports graphics and presentation.
pub fn find_graphics_queue_family(families: &Vec<QueueFamilyInfo>) -> (r: Option<u32>)
    requires
        families.len() <= u32::MAX,
    ensures
        match r {
            Some(i) => {
                &&& i < families.len()
                &&& graphics_and_present(families@[i as int])
                &&& forall|j: int| 0 <= j < i ==> !graphics_and_present(#[trigger] families@[j])
            },
            None => forall|j: int|
                0 <= j < families.len() ==> !graphics_and_present(#[trigger] families@[j]),
        },
{
    let mut index: usize = 0;
    while index < families.len()
        invariant
            index <= families.len(),
            families.len() <= u32::MAX,
            forall|j: int| 0 <= j < index ==> !graphics_and_present(#[trigger] families@[j]),
        decreases families.len() - index,
    {
        let family = families[index];
        if queue_flags_contain(family.queue_flags, QUEUE_GRAPHICS) && family.surface_support {
            return Some(index as u32);
        }
        index += 1;
    }
    None
}

/// The first physical device that has a queue family supporting graphics
/// and presentation, with the first such family of that device.
/// `devices[d]` lists the queue families of device `d`.
pub fn select_physical_device(devices: &Vec<Vec<QueueFamilyInfo>>) -> (r: Option<(usize, u32)>)
    requires
        forall|d: int| 0 <= d < devices.len() ==> #[trigger] devices@[d].len() <= u32::MAX,
    ensures
        match r {
            Some((d, i)) => {
                &&& d < devices.len()
                &&& i < devices@[d as int].len()
                &&& graphics_and_present(devices@[d as int]@[i as int])
                &&& forall|j: int|
                    0 <= j < i ==> !graphics_and_present(#[trigger] devices@[d as int]@[j])
                &&& forall|e: int, j: int|
                    0 <= e < d && 0 <= j < devices@[e].len() ==> !graphics_and_present(
                        #[trigger] devices@[e]@[j],
                    )
            },
            None => forall|e: int, j: int|
                0 <= e < devices.len() && 0 <= j < devices@[e].len() ==> !graphics_and_present(
                    #[trigger] devices@[e]@[j],
                ),
        },
{
    let mut d: usize = 0;
    while d < devices.len()
        invariant
            d <= devices.len(),
            forall|e: int| 0 <= e < devices.len() ==> #[trigger] devices@[e].len() <= u32::MAX,
            forall|e: int, j: int|
                0 <= e < d && 0 <= j < devices@[e].len() ==> !graphics_and_present(
                    #[trigger] devices@[e]@[j],
                ),
        decreases devices.len() - d,
    {
        assert(devices@[d as int].len() <= u32::MAX);
        match find_graphics_queue_family(&devices[d]) {
            Some(i) => {
                return Some((d, i));
            },
            None => {},
        }
        d += 1;
    }
    None
}

/// The first queue family that supports transfers and not graphics.
pub fn find_transfer_queue_family(families: &Vec<QueueFamilyInfo>) -> (r: Option<u32>)
    requires
        families.len() <= u32::MAX,
    ensures
        match r {
            Some(i) => {
                &&& i < families.len()
                &&& dedicated_transfer(families@[i as int])
                &&& forall|j: int| 0 <= j < i ==> !dedicated_transfer(#[trigger] families@[j])
            },
            None => forall|j: int|
                0 <= j < families.len() ==> !dedicated_transfer(#[trigger] families@[j]),
        },
{
    let mut index: usize = 0;
    while index < families.len()
        invariant
            index <= families.len(),
            families.len() <= u32::MAX,
            forall|j: int| 0 <= j < index ==> !dedicated_transfer(#[trigger] families@[j]),
        decreases families.len() - index,
    {
        let flags = families[index].queue_flags;
        if queue_flags_contain(flags, QUEUE_TRANSFER) && !queue_flags_contain(flags, QUEUE_GRAPHICS) {
            return Some(index as u32);
        }
        index += 1;
    }
    None
}

/// The name of the debug-utils instance extension, NUL-terminated.
pub open spec fn debug_utils_extension_name() -> Seq<char> {
    seq!['V', 'K', '_', 'E', 'X', 'T', '_', 'd', 'e', 'b', 'u', 'g', '_', 'u', 't', 'i', 'l', 's', '\0']
}

/// The instance extensions to enable: every extension the window system
/// needs, each NUL-terminated, followed by the debug-utils extension.
pub fn instance_extension_names(window_extensions: &Vec<String>) -> (r: Vec<String>)
    ensures
        r.len() == window_extensions.len() + 1,
        forall|i: int|
            0 <= i < window_extensions.len() ==> #[trigger] r@[i]@ == window_extensions@[i]@ + seq!['\0'],
        r@[window_extensions.len() as int]@ == debug_utils_extension_name(),
{
    let mut names: Vec<String> = Vec::new();
    let mut i: usize = 0;
    while i < window_extensions.len()
        invariant
            i <= window_extensions.len(),
            names.len() == i,
            forall|j: int| 0 <= j < i ==> #[trigger] names@[j]@ == window_extensions@[j]@ + seq!['\0'],
        decreases window_extensions.len() - i,
    {
        let mut name = window_extensions[i].clone();
        proof {
            reveal_strlit("\0");
        }
        name.append("\0");
        names.push(name);
        i += 1;
    }
    proof {
        reveal_strlit("VK_EXT_debug_utils\0");
    }
    let debug_utils = String::from_str("VK_EXT_debug_utils\0");
    assert(debug_utils@ =~= debug_utils_extension_name());
    names.push(debug_utils);
    names
}

} // verus!
