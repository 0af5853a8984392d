//! Whether a physical device will do, and which of several to take.

use vstd::prelude::*;
use crate::vulkan::queue::QueueFamilyIndices;

verus! {

/// Whether two byte strings hold the same bytes.
pub fn same_name(a: &[u8], b: &[u8]) -> (same: bool)
    ensures
        same == (a@ == b@),
{
    if a.len() != b.len() {
        return false;
    }
    let mut i: usize = 0;
    while i < a.len()
        invariant
            i <= a@.len(),
            a@.len() == b@.len(),
            forall|j: int| 0 <= j < i ==> a@[j] == b@[j],
        decreases a@.len() - i,
    {
        if a[i] != b[i] {
            return false;
        }
        i += 1;
    }
    assert(a@ =~= b@);
    true
}

/// `name` is one of `names`.
pub open spec fn name_listed(names: Seq<Vec<u8>>, name: Seq<u8>) -> bool {
    exists|i: int| 0 <= i < names.len() && (#[trigger] names[i])@ == name
}

/// Whether a device offers the extension `required`, given the names of
/// all the extensions it offers.
pub fn check_device_extension_support(available: &[Vec<u8>], required: &[u8]) -> (supported: bool)
    ensures
        supported == name_listed(available@, required@),
{
    let mut i: usize = 0;
    while i < available.len()
        invariant
            i <= available@.len(),
            forall|j: int| 0 <= j < i ==> (#[trigger] available@[j])@ != required@,
        decreases available@.len() - i,
    {
        if same_name(available[i].as_slice(), required) {
            return true;
        }
        i += 1;
    }
    false
}

/// Whether every validation layer of `wanted` is among the layers that
/// the Vulkan installation offers.
pub fn check_validation_layer_support(available: &[Vec<u8>], wanted: &[Vec<u8>]) -> (supported:
    bool)
    ensures
        supported == forall|k: int|
            0 <= k < wanted@.len() ==> name_listed(available@, (#[trigger] wanted@[k])@),
{
    let mut k: usize = 0;
    while k < wanted.len()
        invariant
            k <= wanted@.len(),
            forall|j: int| 0 <= j < k ==> name_listed(available@, (#[trigger] wanted@[j])@),
        decreases wanted@.len() - k,
    {
        if !check_device_extension_support(available, wanted[k].as_slice()) {
            return false;
        }
        k += 1;
    }
    true
}

/// What a program finds out about a physical device before it decides
/// whether to use it.
#[derive(Clone, Copy, Debug, PartialEq, Eq, Structural)]
pub struct DeviceSupport {
    /// The queue families found on the device.
    pub indices: QueueFamilyIndices,
    /// Whether the device offers the swap-chain extension.
    pub extensions_supported: bool,
    /// How many surface formats the device offers for the surface.
    pub format_count: usize,
    /// How many present modes the device offers for the surface.
    pub present_mode_count: usize,
}

impl DeviceSupport {
    /// The device has a graphics and a present family, offers the
    /// swap-chain extension, and has at least one surface format and one
    /// present mode.
    pub open spec fn suitable(&self) -> bool {
        &&& self.indices.complete()
        &&& self.extensions_supported
        &&& self.format_count > 0
        &&& self.present_mode_count > 0
    }
}

/// Whether a device can run the program.
pub fn is_device_suitable(device: &DeviceSupport) -> (suitable: bool)
    ensures
        suitable == device.suitable(),
{
    let swap_chain_adequate = if device.extensions_supported {
        device.format_count != 0 && device.present_mode_count != 0
    } else {
        false
    };
    device.indices.is_complete() && device.extensions_supported && swap_chain_adequate
}

/// The first suitable device, in the order in which the system lists them.
pub fn pick_physical_device(devices: &[DeviceSupport]) -> (choice: Option<usize>)
    ensures
        match choice {
            Some(i) => {
                &&& i < devices@.len()
                &&& devices@[i as int].suitable()
                &&& forall|j: int| 0 <= j < i ==> !(#[trigger] devices@[j]).suitable()
            },
            None => forall|j: int| 0 <= j < devices@.len() ==> !(#[trigger] devices@[j]).suitable(),
        },
{
    let mut i: usize = 0;
    while i < devices.len()
        invariant
            i <= devices@.len(),
            forall|j: int| 0 <= j < i ==> !(#[trigger] devices@[j]).suitable(),
        decreases devices@.len() - i,
    {
        if is_device_suitable(&devices[i]) {
            return Some(i);
        }
        i += 1;
    }
    None
}

} // verus!
